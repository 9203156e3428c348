//! A test double for an OpenID-Connect identity provider: a fixed table of
//! signing keys, the public key set built from them, and signed test tokens.

pub mod discovery;
pub mod json;
pub mod jwks;
pub mod keys;
pub mod store;
pub mod token;
