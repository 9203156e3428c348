//! The fixed identities of the provider's signing keys and the table that
//! gives each its key id and signature algorithm.

use vstd::prelude::*;

verus! {

/// The algorithm family of a key.
#[derive(Clone, Copy, Debug, PartialEq, Eq, Structural)]
pub enum KeyFamily {
    Rsa,
    EcP256,
    Ed25519,
}

/// Whether a key is the one that signs tokens for its family, or the spare.
#[derive(Clone, Copy, Debug, PartialEq, Eq, Structural)]
pub enum KeyRole {
    Primary,
    Secondary,
}

/// The signature algorithm named in key-set entries and token headers.
#[derive(Clone, Copy, Debug, PartialEq, Eq, Structural)]
pub enum JwsAlgorithm {
    RS256,
    ES256,
    EdDSA,
}

/// One configured key: its family and its role within the family.
#[derive(Clone, Copy, Debug, PartialEq, Eq, Structural)]
pub struct KeyIdentity {
    pub family: KeyFamily,
    pub role: KeyRole,
}

/// The signature algorithm that a key of the given family signs with.
pub open spec fn spec_algorithm(family: KeyFamily) -> JwsAlgorithm {
    match family {
        KeyFamily::Rsa => JwsAlgorithm::RS256,
        KeyFamily::EcP256 => JwsAlgorithm::ES256,
        KeyFamily::Ed25519 => JwsAlgorithm::EdDSA,
    }
}

/// The key id of each configured key, shared by the key set and the token headers.
pub open spec fn spec_key_id(id: KeyIdentity) -> Seq<char> {
    match (id.family, id.role) {
        (KeyFamily::Rsa, KeyRole::Primary) => "key-rsa"@,
        (KeyFamily::Rsa, KeyRole::Secondary) => "rsa01"@,
        (KeyFamily::EcP256, KeyRole::Primary) => "key-ec"@,
        (KeyFamily::EcP256, KeyRole::Secondary) => "ec01"@,
        (KeyFamily::Ed25519, KeyRole::Primary) => "key-ed"@,
        (KeyFamily::Ed25519, KeyRole::Secondary) => "ed01"@,
    }
}

/// The name of an algorithm as it is written in JSON.
pub open spec fn spec_algorithm_name(alg: JwsAlgorithm) -> Seq<char> {
    match alg {
        JwsAlgorithm::RS256 => "RS256"@,
        JwsAlgorithm::ES256 => "ES256"@,
        JwsAlgorithm::EdDSA => "EdDSA"@,
    }
}

/// The six configured keys, in configuration order.
pub open spec fn spec_configured() -> Seq<KeyIdentity> {
    seq![
        KeyIdentity { family: KeyFamily::Rsa, role: KeyRole::Primary },
        KeyIdentity { family: KeyFamily::Rsa, role: KeyRole::Secondary },
        KeyIdentity { family: KeyFamily::EcP256, role: KeyRole::Primary },
        KeyIdentity { family: KeyFamily::EcP256, role: KeyRole::Secondary },
        KeyIdentity { family: KeyFamily::Ed25519, role: KeyRole::Primary },
        KeyIdentity { family: KeyFamily::Ed25519, role: KeyRole::Secondary },
    ]
}

/// The algorithm that a key of the given family signs with.
pub fn algorithm(family: KeyFamily) -> (r: JwsAlgorithm)
    ensures
        r == spec_algorithm(family),
{
    match family {
        KeyFamily::Rsa => JwsAlgorithm::RS256,
        KeyFamily::EcP256 => JwsAlgorithm::ES256,
        KeyFamily::Ed25519 => JwsAlgorithm::EdDSA,
    }
}

/// The name of an algorithm as it is written in JSON.
pub fn algorithm_name(alg: JwsAlgorithm) -> (r: &'static str)
    ensures
        r@ == spec_algorithm_name(alg),
{
    match alg {
        JwsAlgorithm::RS256 => {
            proof { reveal_strlit("RS256"); }
            "RS256"
        },
        JwsAlgorithm::ES256 => {
            proof { reveal_strlit("ES256"); }
            "ES256"
        },
        JwsAlgorithm::EdDSA => {
            proof { reveal_strlit("EdDSA"); }
            "EdDSA"
        },
    }
}

/// The key id of a configured key.
pub fn key_id(id: KeyIdentity) -> (r: &'static str)
    ensures
        r@ == spec_key_id(id),
{
    match (id.family, id.role) {
        (KeyFamily::Rsa, KeyRole::Primary) => "key-rsa",
        (KeyFamily::Rsa, KeyRole::Secondary) => "rsa01",
        (KeyFamily::EcP256, KeyRole::Primary) => "key-ec",
        (KeyFamily::EcP256, KeyRole::Secondary) => "ec01",
        (KeyFamily::Ed25519, KeyRole::Primary) => "key-ed",
        (KeyFamily::Ed25519, KeyRole::Secondary) => "ed01",
    }
}

/// The six configured keys, in configuration order.
pub fn configured_identities() -> (r: Vec<KeyIdentity>)
    ensures
        r@ == spec_configured(),
{
    let r = vec![
        KeyIdentity { family: KeyFamily::Rsa, role: KeyRole::Primary },
        KeyIdentity { family: KeyFamily::Rsa, role: KeyRole::Secondary },
        KeyIdentity { family: KeyFamily::EcP256, role: KeyRole::Primary },
        KeyIdentity { family: KeyFamily::EcP256, role: KeyRole::Secondary },
        KeyIdentity { family: KeyFamily::Ed25519, role: KeyRole::Primary },
        KeyIdentity { family: KeyFamily::Ed25519, role: KeyRole::Secondary },
    ];
    assert(r@ =~= spec_configured());
    r
}

/// Keys of distinct identities have distinct key ids.
pub proof fn key_ids_are_unique(a: KeyIdentity, b: KeyIdentity)
    requires
        a != b,
    ensures
        spec_key_id(a) != spec_key_id(b),
{
    reveal_strlit("key-rsa");
    reveal_strlit("rsa01");
    reveal_strlit("key-ec");
    reveal_strlit("ec01");
    reveal_strlit("key-ed");
    reveal_strlit("ed01");
    if spec_key_id(a) == spec_key_id(b) {
        let x = spec_key_id(a);
        let y = spec_key_id(b);
        assert(x.len() == y.len() && x[1] == y[1] && x[x.len() - 1] == y[y.len() - 1]);
    }
}

} // verus!
