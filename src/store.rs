//! The key store: loads each configured key once, from its PEM bytes, into a
//! handle that holds the key's public parameters and its signing key.

use vstd::prelude::*;
use crate::keys::{KeyFamily, KeyIdentity, KeyRole, spec_configured};
use josekit::jwk::alg::ec::EcKeyPair;
use josekit::jwk::alg::ed::EdKeyPair;
use josekit::jwk::alg::rsa::RsaKeyPair;
use josekit::jwk::Jwk;
use josekit::JoseError;
use jsonwebtoken::EncodingKey;

verus! {

#[verifier::external_type_specification]
#[verifier::external_body]
pub struct ExRsaKeyPair(RsaKeyPair);

#[verifier::external_type_specification]
#[verifier::external_body]
pub struct ExEcKeyPair(EcKeyPair);

#[verifier::external_type_specification]
#[verifier::external_body]
pub struct ExEdKeyPair(EdKeyPair);

#[verifier::external_type_specification]
#[verifier::external_body]
pub struct ExJwk(Jwk);

#[verifier::external_type_specification]
#[verifier::external_body]
pub struct ExJoseError(JoseError);

#[verifier::external_type_specification]
#[verifier::external_body]
pub struct ExEncodingKey(EncodingKey);

#[verifier::external_type_specification]
#[verifier::external_body]
pub struct ExJwtError(jsonwebtoken::errors::Error);

/// Whether josekit's `RsaKeyPair::from_pem` accepts the bytes.
pub uninterp spec fn rsa_pair_parses(pem: Seq<u8>) -> bool;

/// Whether josekit's `EcKeyPair::from_pem`, asked for P-256, accepts the bytes.
pub uninterp spec fn ec_p256_pair_parses(pem: Seq<u8>) -> bool;

/// Whether josekit's `EdKeyPair::from_pem` accepts the bytes.
pub uninterp spec fn ed_pair_parses(pem: Seq<u8>) -> bool;

/// Whether jsonwebtoken's `EncodingKey::from_rsa_pem` accepts the bytes.
pub uninterp spec fn rsa_signing_key_parses(pem: Seq<u8>) -> bool;

/// Whether jsonwebtoken's `EncodingKey::from_ec_pem` accepts the bytes.
pub uninterp spec fn ec_signing_key_parses(pem: Seq<u8>) -> bool;

/// Whether jsonwebtoken's `EncodingKey::from_ed_pem` accepts the bytes.
pub uninterp spec fn ed_signing_key_parses(pem: Seq<u8>) -> bool;

/// The members of a JWK whose values are JSON strings.
pub uninterp spec fn jwk_text_members(jwk: Jwk) -> Map<Seq<char>, Seq<char>>;

/// Relies on josekit's `RsaKeyPair::from_pem`: parses an RSA private key; the
/// outcome depends on the bytes alone.
#[verifier::external_body]
fn rsa_pair_from_pem(pem: &[u8]) -> (r: Result<RsaKeyPair, JoseError>)
    ensures
        r is Ok <==> rsa_pair_parses(pem@),
{
    RsaKeyPair::from_pem(pem)
}

/// Relies on josekit's `EcKeyPair::from_pem` with the P-256 curve: parses an EC
/// private key, failing where its curve is another; the outcome depends on the
/// bytes alone.
#[verifier::external_body]
fn ec_p256_pair_from_pem(pem: &[u8]) -> (r: Result<EcKeyPair, JoseError>)
    ensures
        r is Ok <==> ec_p256_pair_parses(pem@),
{
    EcKeyPair::from_pem(pem, Some(josekit::jwk::alg::ec::EcCurve::P256))
}

/// Relies on josekit's `EdKeyPair::from_pem`: parses an Ed25519 private key;
/// the outcome depends on the bytes alone.
#[verifier::external_body]
fn ed_pair_from_pem(pem: &[u8]) -> (r: Result<EdKeyPair, JoseError>)
    ensures
        r is Ok <==> ed_pair_parses(pem@),
{
    EdKeyPair::from_pem(pem)
}

/// Relies on josekit's `to_jwk_public_key` of an RSA key pair: the public half
/// as a JWK, which always holds the string members `n` and `e`.
#[verifier::external_body]
fn rsa_public_jwk(pair: &RsaKeyPair) -> (r: Jwk)
    ensures
        jwk_text_members(r).contains_key("n"@),
        jwk_text_members(r).contains_key("e"@),
{
    josekit::jwk::KeyPair::to_jwk_public_key(pair)
}

/// Relies on josekit's `to_jwk_public_key` of an EC key pair: the public half
/// as a JWK, which always holds the string members `crv`, `x` and `y`.
#[verifier::external_body]
fn ec_public_jwk(pair: &EcKeyPair) -> (r: Jwk)
    ensures
        jwk_text_members(r).contains_key("crv"@),
        jwk_text_members(r).contains_key("x"@),
        jwk_text_members(r).contains_key("y"@),
{
    josekit::jwk::KeyPair::to_jwk_public_key(pair)
}

/// Relies on josekit's `to_jwk_public_key` of an Ed25519 key pair: the public
/// half as a JWK, which always holds the string members `crv` and `x`.
#[verifier::external_body]
fn ed_public_jwk(pair: &EdKeyPair) -> (r: Jwk)
    ensures
        jwk_text_members(r).contains_key("crv"@),
        jwk_text_members(r).contains_key("x"@),
{
    josekit::jwk::KeyPair::to_jwk_public_key(pair)
}

/// Relies on josekit's `Jwk::parameter`: the named member of the JWK, where it
/// is a JSON string.
#[verifier::external_body]
fn jwk_text_parameter(jwk: &Jwk, name: &str) -> (r: Option<String>)
    ensures
        r is Some <==> jwk_text_members(*jwk).contains_key(name@),
        r matches Some(v) ==> v@ == jwk_text_members(*jwk)[name@],
{
    match jwk.parameter(name) {
        Some(serde_json::Value::String(s)) => Some(s.clone()),
        _ => None,
    }
}

/// Relies on jsonwebtoken's `EncodingKey::from_rsa_pem`: the signing key of an
/// RSA PEM; the outcome depends on the bytes alone.
#[verifier::external_body]
fn rsa_encoding_key(pem: &[u8]) -> (r: Result<EncodingKey, jsonwebtoken::errors::Error>)
    ensures
        r is Ok <==> rsa_signing_key_parses(pem@),
{
    EncodingKey::from_rsa_pem(pem)
}

/// Relies on jsonwebtoken's `EncodingKey::from_ec_pem`: the signing key of an
/// EC PEM; the outcome depends on the bytes alone.
#[verifier::external_body]
fn ec_encoding_key(pem: &[u8]) -> (r: Result<EncodingKey, jsonwebtoken::errors::Error>)
    ensures
        r is Ok <==> ec_signing_key_parses(pem@),
{
    EncodingKey::from_ec_pem(pem)
}

/// Relies on jsonwebtoken's `EncodingKey::from_ed_pem`: the signing key of an
/// Ed25519 PEM; the outcome depends on the bytes alone.
#[verifier::external_body]
fn ed_encoding_key(pem: &[u8]) -> (r: Result<EncodingKey, jsonwebtoken::errors::Error>)
    ensures
        r is Ok <==> ed_signing_key_parses(pem@),
{
    EncodingKey::from_ed_pem(pem)
}

/// Whether the bytes load as a key of the family: josekit reads the key pair
/// and jsonwebtoken makes the signing key.
pub open spec fn key_loads(family: KeyFamily, pem: Seq<u8>) -> bool {
    match family {
        KeyFamily::Rsa => rsa_pair_parses(pem) && rsa_signing_key_parses(pem),
        KeyFamily::EcP256 => ec_p256_pair_parses(pem) && ec_signing_key_parses(pem),
        KeyFamily::Ed25519 => ed_pair_parses(pem) && ed_signing_key_parses(pem),
    }
}

/// Whether each of the six PEM sources loads as its configured key.
pub open spec fn all_keys_load(pems: Seq<Vec<u8>>) -> bool {
    forall|i: int| 0 <= i < 6 ==> key_loads(spec_configured()[i].family, #[trigger] pems[i]@)
}

/// The public parameters of a key, one shape per family. There is no place
/// in it for private material.
pub enum PublicParams {
    /// Modulus and exponent.
    Rsa { n: String, e: String },
    /// Curve name and the point's coordinates.
    Ec { crv: String, x: String, y: String },
    /// Curve name and the public key bytes.
    Okp { crv: String, x: String },
}

/// The public parameters as character sequences, in the order they are written.
pub open spec fn params_view(p: &PublicParams) -> Seq<(Seq<char>, Seq<char>)> {
    match p {
        PublicParams::Rsa { n, e } => seq![("n"@, n@), ("e"@, e@)],
        PublicParams::Ec { crv, x, y } => seq![("crv"@, crv@), ("x"@, x@), ("y"@, y@)],
        PublicParams::Okp { crv, x } => seq![("crv"@, crv@), ("x"@, x@)],
    }
}

/// The family whose shape the parameters have.
pub open spec fn params_family(p: &PublicParams) -> KeyFamily {
    match p {
        PublicParams::Rsa { .. } => KeyFamily::Rsa,
        PublicParams::Ec { .. } => KeyFamily::EcP256,
        PublicParams::Okp { .. } => KeyFamily::Ed25519,
    }
}

impl PublicParams {
    /// A copy of the parameters.
    pub fn copy(&self) -> (r: PublicParams)
        ensures
            params_view(&r) == params_view(self),
            params_family(&r) == params_family(self),
    {
        match self {
            PublicParams::Rsa { n, e } => PublicParams::Rsa { n: n.clone(), e: e.clone() },
            PublicParams::Ec { crv, x, y } => PublicParams::Ec {
                crv: crv.clone(),
                x: x.clone(),
                y: y.clone(),
            },
            PublicParams::Okp { crv, x } => PublicParams::Okp { crv: crv.clone(), x: x.clone() },
        }
    }
}

/// A configured key source: the identity it is expected to hold and its PEM bytes.
pub struct KeySource {
    pub identity: KeyIdentity,
    pub pem: Vec<u8>,
}

/// A configured key whose bytes could not be read as its declared family
/// (for EC, also: whose curve is not P-256).
#[derive(Clone, Copy, Debug, PartialEq, Eq, Structural)]
pub struct KeyLoadError {
    pub identity: KeyIdentity,
}

/// A loaded key: its identity, its public parameters and its signing key.
pub struct KeyPairHandle {
    pub identity: KeyIdentity,
    pub params: PublicParams,
    pub signer: EncodingKey,
}

/// The loaded keys, one per configured identity, in configuration order.
pub struct KeyStore {
    pub handles: Vec<KeyPairHandle>,
}

/// The identities of the handles, in order.
pub open spec fn handle_identities(hs: Seq<KeyPairHandle>) -> Seq<KeyIdentity> {
    hs.map_values(|h: KeyPairHandle| h.identity)
}

impl KeyStore {
    /// The store holds one handle per configured key, in configuration order,
    /// each with parameters of its family's shape.
    pub open spec fn wf(&self) -> bool {
        &&& handle_identities(self.handles@) == spec_configured()
        &&& forall|i: int|
            0 <= i < self.handles@.len() ==> params_family(&#[trigger] self.handles@[i].params)
                == self.handles@[i].identity.family
    }
}

/// Reads the member `name` of a public JWK, failing for `id` where it is missing.
fn required_parameter(jwk: &Jwk, name: &str, id: KeyIdentity) -> (r: Result<String, KeyLoadError>)
    ensures
        r is Ok <==> jwk_text_members(*jwk).contains_key(name@),
        r matches Err(e) ==> e.identity == id,
{
    match jwk_text_parameter(jwk, name) {
        Some(s) => Ok(s),
        None => Err(KeyLoadError { identity: id }),
    }
}

/// Loads one key: parses the source's bytes as a key of its declared family,
/// keeps its public parameters and makes its signing key.
pub fn load(source: &KeySource) -> (r: Result<KeyPairHandle, KeyLoadError>)
    ensures
        r is Ok <==> key_loads(source.identity.family, source.pem@),
        r matches Ok(h) ==> h.identity == source.identity && params_family(&h.params)
            == source.identity.family,
        r matches Err(e) ==> e.identity == source.identity,
{
    load_key(source.identity, source.pem.as_slice())
}

/// Loads the key `id` from its PEM bytes.
fn load_key(id: KeyIdentity, pem: &[u8]) -> (r: Result<KeyPairHandle, KeyLoadError>)
    ensures
        r is Ok <==> key_loads(id.family, pem@),
        r matches Ok(h) ==> h.identity == id && params_family(&h.params) == id.family,
        r matches Err(e) ==> e.identity == id,
{
    proof {
        reveal_strlit("n");
        reveal_strlit("e");
        reveal_strlit("crv");
        reveal_strlit("x");
        reveal_strlit("y");
    }
    let failed = KeyLoadError { identity: id };
    match id.family {
        KeyFamily::Rsa => {
            let pair = match rsa_pair_from_pem(pem) {
                Ok(p) => p,
                Err(_) => return Err(failed),
            };
            let jwk = rsa_public_jwk(&pair);
            let n = required_parameter(&jwk, "n", id)?;
            let e = required_parameter(&jwk, "e", id)?;
            let signer = match rsa_encoding_key(pem) {
                Ok(k) => k,
                Err(_) => return Err(failed),
            };
            Ok(KeyPairHandle { identity: id, params: PublicParams::Rsa { n, e }, signer })
        },
        KeyFamily::EcP256 => {
            let pair = match ec_p256_pair_from_pem(pem) {
                Ok(p) => p,
                Err(_) => return Err(failed),
            };
            let jwk = ec_public_jwk(&pair);
            let crv = required_parameter(&jwk, "crv", id)?;
            let x = required_parameter(&jwk, "x", id)?;
            let y = required_parameter(&jwk, "y", id)?;
            let signer = match ec_encoding_key(pem) {
                Ok(k) => k,
                Err(_) => return Err(failed),
            };
            Ok(KeyPairHandle { identity: id, params: PublicParams::Ec { crv, x, y }, signer })
        },
        KeyFamily::Ed25519 => {
            let pair = match ed_pair_from_pem(pem) {
                Ok(p) => p,
                Err(_) => return Err(failed),
            };
            let jwk = ed_public_jwk(&pair);
            let crv = required_parameter(&jwk, "crv", id)?;
            let x = required_parameter(&jwk, "x", id)?;
            let signer = match ed_encoding_key(pem) {
                Ok(k) => k,
                Err(_) => return Err(failed),
            };
            Ok(KeyPairHandle { identity: id, params: PublicParams::Okp { crv, x }, signer })
        },
    }
}

/// Loads the six configured keys from their PEM bytes, given in configuration
/// order. The first key that fails to load fails the whole store.
pub fn load_store(pems: &Vec<Vec<u8>>) -> (r: Result<KeyStore, KeyLoadError>)
    requires
        pems@.len() == 6,
    ensures
        r is Ok <==> all_keys_load(pems@),
        r matches Ok(s) ==> s.wf(),
        r matches Err(e) ==> exists|k: int|
            0 <= k < 6 && e.identity == spec_configured()[k] && !key_loads(
                spec_configured()[k].family,
                #[trigger] pems@[k]@,
            ) && forall|j: int|
                0 <= j < k ==> key_loads(spec_configured()[j].family, #[trigger] pems@[j]@),
{
    let ids = crate::keys::configured_identities();
    let mut handles: Vec<KeyPairHandle> = Vec::new();
    let mut i: usize = 0;
    while i < 6
        invariant
            ids@ == spec_configured(),
            pems@.len() == 6,
            i <= 6,
            handles@.len() == i,
            forall|j: int|
                0 <= j < i ==> key_loads(spec_configured()[j].family, #[trigger] pems@[j]@),
            forall|j: int| 0 <= j < i ==> (#[trigger] handles@[j]).identity == ids@[j],
            forall|j: int|
                0 <= j < i ==> params_family(&(#[trigger] handles@[j]).params)
                    == handles@[j].identity.family,
        decreases 6 - i,
    {
        match load_key(ids[i], pems[i].as_slice()) {
            Ok(h) => handles.push(h),
            Err(e) => {
                assert(spec_configured()[i as int] == e.identity);
                assert(!key_loads(spec_configured()[i as int].family, pems@[i as int]@));
                assert(!all_keys_load(pems@));
                return Err(e);
            },
        }
        i = i + 1;
    }
    assert(all_keys_load(pems@));
    let store = KeyStore { handles };
    assert(handle_identities(store.handles@) =~= spec_configured());
    Ok(store)
}

} // verus!
