//! The discovery document: the issuer and where its key set is served.

use vstd::prelude::*;
use crate::json::{chars_to_string, push_json_string, push_str};
use crate::jwks::member;
use crate::token::{issuer_uri, spec_issuer};

verus! {

/// The discovery document.
pub struct OidcDiscovery {
    pub issuer: String,
    pub jwks_uri: String,
}

/// The JSON text of a discovery document.
pub open spec fn discovery_text(issuer: Seq<char>, jwks_uri: Seq<char>) -> Seq<char> {
    seq!['{'] + member("issuer"@, issuer) + seq![','] + member("jwks_uri"@, jwks_uri) + seq!['}']
}

/// The discovery document of this provider: its issuer, and the key-set
/// location under it.
pub fn discovery() -> (r: OidcDiscovery)
    ensures
        r.issuer@ == spec_issuer(),
        r.jwks_uri@ == spec_issuer() + "/jwks"@,
{
    let mut uri: Vec<char> = Vec::new();
    push_str(&mut uri, issuer_uri());
    push_str(&mut uri, "/jwks");
    OidcDiscovery { issuer: issuer_uri().to_owned(), jwks_uri: chars_to_string(uri) }
}

impl OidcDiscovery {
    /// The document as a JSON object.
    pub fn to_json(&self) -> (r: String)
        ensures
            r@ == discovery_text(self.issuer@, self.jwks_uri@),
    {
        let mut out: Vec<char> = Vec::new();
        out.push('{');
        push_json_string(&mut out, "issuer");
        out.push(':');
        push_json_string(&mut out, self.issuer.as_str());
        out.push(',');
        push_json_string(&mut out, "jwks_uri");
        out.push(':');
        push_json_string(&mut out, self.jwks_uri.as_str());
        out.push('}');
        assert(out@ =~= discovery_text(self.issuer@, self.jwks_uri@));
        chars_to_string(out)
    }
}

} // verus!
