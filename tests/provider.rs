use josekit::jwk::alg::ec::{EcCurve, EcKeyPair};
use josekit::jwk::alg::ed::{EdCurve, EdKeyPair};
use josekit::jwk::alg::rsa::RsaKeyPair;
use josekit::jwk::KeyPair;
use jsonwebtoken::{decode, decode_header, Algorithm, DecodingKey, Validation};
use oidc_double::discovery::discovery;
use oidc_double::keys::{configured_identities, key_id, KeyFamily, KeyIdentity, KeyRole};
use oidc_double::store::{load, load_store, KeyLoadError, KeySource, PublicParams};
use oidc_double::token::{build_header, claims_json, fixed_claims, issuer_uri, tokens, Claims};
use oidc_double::jwks::{build_key_set, jwks};
use serde_json::Value;

fn rsa_pem() -> Vec<u8> {
    RsaKeyPair::generate(2048).unwrap().to_pem_private_key()
}

fn ec_pem() -> Vec<u8> {
    EcKeyPair::generate(EcCurve::P256).unwrap().to_pem_private_key()
}

fn ed_pem() -> Vec<u8> {
    EdKeyPair::generate(EdCurve::Ed25519).unwrap().to_pem_private_key()
}

fn six_pems() -> Vec<Vec<u8>> {
    vec![rsa_pem(), rsa_pem(), ec_pem(), ec_pem(), ed_pem(), ed_pem()]
}

fn decoding_key(entry: &Value) -> DecodingKey {
    match entry["kty"].as_str().unwrap() {
        "RSA" => DecodingKey::from_rsa_components(
            entry["n"].as_str().unwrap(),
            entry["e"].as_str().unwrap(),
        )
        .unwrap(),
        "EC" => DecodingKey::from_ec_components(
            entry["x"].as_str().unwrap(),
            entry["y"].as_str().unwrap(),
        )
        .unwrap(),
        _ => DecodingKey::from_ed_components(entry["x"].as_str().unwrap()).unwrap(),
    }
}

fn algorithm_of(entry: &Value) -> Algorithm {
    match entry["alg"].as_str().unwrap() {
        "RS256" => Algorithm::RS256,
        "ES256" => Algorithm::ES256,
        _ => Algorithm::EdDSA,
    }
}

#[test]
fn key_table_matches_configuration() {
    let ids = configured_identities();
    let kids: Vec<&str> = ids.iter().map(|id| key_id(*id)).collect();
    assert_eq!(kids, vec!["key-rsa", "rsa01", "key-ec", "ec01", "key-ed", "ed01"]);
}

#[test]
fn all_six_keys_load_with_their_families() {
    let store = load_store(&six_pems()).unwrap();
    assert_eq!(store.handles.len(), 6);
    let ids = configured_identities();
    for (h, id) in store.handles.iter().zip(ids.iter()) {
        assert_eq!(h.identity, *id);
        let family = match h.params {
            PublicParams::Rsa { .. } => KeyFamily::Rsa,
            PublicParams::Ec { .. } => KeyFamily::EcP256,
            PublicParams::Okp { .. } => KeyFamily::Ed25519,
        };
        assert_eq!(family, id.family);
    }
}

#[test]
fn key_set_has_six_signature_entries() {
    let store = load_store(&six_pems()).unwrap();
    let v: Value = serde_json::from_str(&jwks(&store)).unwrap();
    let keys = v["keys"].as_array().unwrap();
    assert_eq!(keys.len(), 6);
    let expected = [
        ("key-rsa", "RS256", "RSA"),
        ("rsa01", "RS256", "RSA"),
        ("key-ec", "ES256", "EC"),
        ("ec01", "ES256", "EC"),
        ("key-ed", "EdDSA", "OKP"),
        ("ed01", "EdDSA", "OKP"),
    ];
    for (k, (kid, alg, kty)) in keys.iter().zip(expected.iter()) {
        assert_eq!(k["kid"], *kid);
        assert_eq!(k["alg"], *alg);
        assert_eq!(k["kty"], *kty);
        assert_eq!(k["use"], "sig");
    }
    assert_eq!(keys[2]["crv"], "P-256");
    assert_eq!(keys[4]["crv"], "Ed25519");
}

#[test]
fn key_set_entries_hold_only_public_members() {
    let store = load_store(&six_pems()).unwrap();
    let v: Value = serde_json::from_str(&jwks(&store)).unwrap();
    for k in v["keys"].as_array().unwrap() {
        let obj = k.as_object().unwrap();
        for private in ["d", "p", "q", "dp", "dq", "qi"] {
            assert!(!obj.contains_key(private));
        }
    }
}

#[test]
fn key_set_is_the_same_on_every_call() {
    let store = load_store(&six_pems()).unwrap();
    assert_eq!(jwks(&store), jwks(&store));
    let a = build_key_set(&store);
    let b = build_key_set(&store);
    assert_eq!(a.len(), b.len());
    for (x, y) in a.iter().zip(b.iter()) {
        assert_eq!(x.to_json(), y.to_json());
    }
}

#[test]
fn tokens_carry_primary_key_ids_and_fixed_claims() {
    let store = load_store(&six_pems()).unwrap();
    let ts = tokens(&store).unwrap();
    let labelled = [("rsa", &ts.rsa, "key-rsa", Algorithm::RS256), ("ec", &ts.ec, "key-ec", Algorithm::ES256), ("ed", &ts.ed, "key-ed", Algorithm::EdDSA)];
    let response: Value = serde_json::from_str(&ts.to_json()).unwrap();
    assert_eq!(response.as_object().unwrap().len(), 3);
    for (label, t, kid, alg) in labelled {
        assert_eq!(response[label], t.token.as_str());
        let h = decode_header(&t.token).unwrap();
        assert_eq!(h.kid.as_deref(), Some(kid));
        assert_eq!(h.alg, alg);
        assert_eq!(h.typ.as_deref(), Some("JWT"));
        assert_eq!(t.header.kid, kid);
        let claims_segment = t.token.split('.').nth(1).unwrap();
        let bytes = base64_url_decode(claims_segment);
        let claims: Value = serde_json::from_slice(&bytes).unwrap();
        assert_eq!(claims["iss"], "http://localhost:3001");
        assert_eq!(claims["sub"], "b@b.com");
        assert_eq!(claims["exp"], 2000000000u64);
        assert_eq!(claims["nbf"], 1516239022u64);
        assert_eq!(claims.as_object().unwrap().len(), 4);
    }
}

fn base64_url_decode(s: &str) -> Vec<u8> {
    let alphabet = "ABCDEFGHIJKLMNOPQRSTUVWXYZabcdefghijklmnopqrstuvwxyz0123456789-_";
    let mut bits: u32 = 0;
    let mut n = 0;
    let mut out = Vec::new();
    for c in s.chars() {
        bits = (bits << 6) | alphabet.find(c).unwrap() as u32;
        n += 6;
        if n >= 8 {
            n -= 8;
            out.push((bits >> n) as u8);
            bits &= (1 << n) - 1;
        }
    }
    out
}

#[test]
fn tokens_verify_only_against_their_own_entry() {
    let store = load_store(&six_pems()).unwrap();
    let ts = tokens(&store).unwrap();
    let v: Value = serde_json::from_str(&jwks(&store)).unwrap();
    let keys = v["keys"].as_array().unwrap();
    for t in [&ts.rsa, &ts.ec, &ts.ed] {
        for entry in keys {
            let mut validation = Validation::new(algorithm_of(entry));
            validation.validate_exp = false;
            let outcome = decode::<Value>(&t.token, &decoding_key(entry), &validation);
            assert_eq!(outcome.is_ok(), entry["kid"] == t.header.kid.as_str());
        }
    }
}

#[test]
fn key_set_and_tokens_scenario() {
    let store = load_store(&six_pems()).unwrap();
    let v: Value = serde_json::from_str(&jwks(&store)).unwrap();
    assert_eq!(v["keys"][0]["kid"], "key-rsa");
    assert_eq!(v["keys"][0]["alg"], "RS256");
    let response: Value = serde_json::from_str(&tokens(&store).unwrap().to_json()).unwrap();
    for label in ["rsa", "ec", "ed"] {
        let t = response[label].as_str().unwrap();
        assert!(!t.is_empty());
        let parts: Vec<&str> = t.split('.').collect();
        assert_eq!(parts.len(), 3);
        assert!(parts.iter().all(|p| !p.is_empty()));
    }
}

#[test]
fn truncated_pem_fails_the_store() {
    let mut pems = six_pems();
    let half = pems[2].len() / 2;
    pems[2].truncate(half);
    let err = load_store(&pems).err().unwrap();
    assert_eq!(err, KeyLoadError { identity: KeyIdentity { family: KeyFamily::EcP256, role: KeyRole::Primary } });
}

#[test]
fn key_of_another_family_is_refused() {
    let source = KeySource { identity: KeyIdentity { family: KeyFamily::Rsa, role: KeyRole::Secondary }, pem: ed_pem() };
    let err = load(&source).err().unwrap();
    assert_eq!(err.identity, source.identity);
}

#[test]
fn ec_key_on_another_curve_is_refused() {
    let pem = EcKeyPair::generate(EcCurve::P384).unwrap().to_pem_private_key();
    let source = KeySource { identity: KeyIdentity { family: KeyFamily::EcP256, role: KeyRole::Primary }, pem };
    assert!(load(&source).is_err());
}

#[test]
fn empty_source_is_refused() {
    let source = KeySource { identity: KeyIdentity { family: KeyFamily::Ed25519, role: KeyRole::Primary }, pem: Vec::new() };
    assert!(load(&source).is_err());
}

#[test]
fn fixed_claims_are_written_in_order() {
    assert_eq!(
        claims_json(&fixed_claims()),
        "{\"iss\":\"http://localhost:3001\",\"sub\":\"b@b.com\",\"exp\":2000000000,\"nbf\":1516239022}"
    );
}

#[test]
fn claims_strings_are_escaped() {
    let c = Claims { iss: "a\"b\\c".to_string(), sub: "x\ny\u{1}".to_string(), exp: 0, nbf: 9 };
    assert_eq!(
        claims_json(&c),
        "{\"iss\":\"a\\\"b\\\\c\",\"sub\":\"x\\ny\\u0001\",\"exp\":0,\"nbf\":9}"
    );
}

#[test]
fn header_is_jwt_with_given_key_id() {
    let h = build_header(oidc_double::keys::JwsAlgorithm::ES256, "key-ec");
    assert_eq!(h.typ, "JWT");
    assert_eq!(h.kid, "key-ec");
    assert_eq!(h.alg, oidc_double::keys::JwsAlgorithm::ES256);
}

#[test]
fn discovery_names_issuer_and_key_set() {
    let d = discovery();
    assert_eq!(d.issuer, issuer_uri());
    assert_eq!(d.jwks_uri, "http://localhost:3001/jwks");
    assert_eq!(
        d.to_json(),
        "{\"issuer\":\"http://localhost:3001\",\"jwks_uri\":\"http://localhost:3001/jwks\"}"
    );
}

#[test]
fn wrong_family_source_fails_the_store() {
    let mut pems = six_pems();
    pems[0] = ed_pem();
    let err = load_store(&pems).err().unwrap();
    assert_eq!(err.identity, KeyIdentity { family: KeyFamily::Rsa, role: KeyRole::Primary });
}

#[test]
fn first_failing_source_is_reported() {
    let mut pems = six_pems();
    pems[3] = EcKeyPair::generate(EcCurve::P384).unwrap().to_pem_private_key();
    pems[5] = Vec::new();
    let err = load_store(&pems).err().unwrap();
    assert_eq!(err.identity, KeyIdentity { family: KeyFamily::EcP256, role: KeyRole::Secondary });
}
