//! The token issuer: one signed compact token per key family, over a single
//! claim set, with a header whose key id names the family's primary key.

use vstd::prelude::*;
use crate::json::{
    chars_to_string, decimal, is_ascii_text, json_string, lemma_ascii_concat, lemma_decimal_ascii,
    lemma_json_string_ascii, push_decimal, push_json_string,
};
use crate::jwks::{member, spec_key_set};
use crate::keys::{
    algorithm, key_id, spec_algorithm, spec_algorithm_name, spec_configured, spec_key_id,
    JwsAlgorithm, KeyFamily, KeyIdentity, KeyRole,
};
use crate::store::{handle_identities, KeyStore};
use jsonwebtoken::EncodingKey;

verus! {

/// The issuer that the provider names in its tokens and discovery document.
pub open spec fn spec_issuer() -> Seq<char> {
    "http://localhost:3001"@
}

/// The issuer URI.
pub fn issuer_uri() -> (r: &'static str)
    ensures
        r@ == spec_issuer(),
{
    proof {
        reveal_strlit("http://localhost:3001");
    }
    "http://localhost:3001"
}

/// The claims that every issued token carries.
pub struct Claims {
    pub iss: String,
    pub sub: String,
    pub exp: u64,
    pub nbf: u64,
}

/// The fixed test claims: this provider's issuer, subject `b@b.com`, expiry
/// 2000000000 (May 2033), not-before 1516239022 (January 2018).
pub fn fixed_claims() -> (r: Claims)
    ensures
        r.iss@ == spec_issuer(),
        r.sub@ == "b@b.com"@,
        r.exp == 2000000000,
        r.nbf == 1516239022,
{
    Claims {
        iss: issuer_uri().to_owned(),
        sub: "b@b.com".to_owned(),
        exp: 2000000000,
        nbf: 1516239022,
    }
}

/// The JSON object of a claim set, members in the order iss, sub, exp, nbf.
pub open spec fn claims_fields_text(iss: Seq<char>, sub: Seq<char>, exp: nat, nbf: nat) -> Seq<char> {
    seq!['{'] + member("iss"@, iss) + seq![','] + member("sub"@, sub) + seq![','] + json_string(
        "exp"@,
    ) + seq![':'] + decimal(exp) + seq![','] + json_string("nbf"@) + seq![':'] + decimal(nbf)
        + seq!['}']
}

/// The JSON object of a claim set.
pub open spec fn claims_text(c: Claims) -> Seq<char> {
    claims_fields_text(c.iss@, c.sub@, c.exp as nat, c.nbf as nat)
}

/// The JSON object of the fixed test claims.
pub open spec fn fixed_claims_text() -> Seq<char> {
    claims_fields_text(spec_issuer(), "b@b.com"@, 2000000000, 1516239022)
}

/// The claim set as a JSON object.
pub fn claims_json(c: &Claims) -> (r: String)
    ensures
        r@ == claims_text(*c),
{
    let mut out: Vec<char> = Vec::new();
    out.push('{');
    push_json_string(&mut out, "iss");
    out.push(':');
    push_json_string(&mut out, c.iss.as_str());
    out.push(',');
    push_json_string(&mut out, "sub");
    out.push(':');
    push_json_string(&mut out, c.sub.as_str());
    out.push(',');
    push_json_string(&mut out, "exp");
    out.push(':');
    push_decimal(&mut out, c.exp);
    out.push(',');
    push_json_string(&mut out, "nbf");
    out.push(':');
    push_decimal(&mut out, c.nbf);
    out.push('}');
    assert(out@ =~= claims_text(*c));
    chars_to_string(out)
}

/// The header of a token: its type marker, algorithm and key id.
pub struct TokenHeader {
    pub typ: String,
    pub alg: JwsAlgorithm,
    pub kid: String,
}

/// A minimal token header: type `JWT`, the given algorithm and key id.
pub fn build_header(alg: JwsAlgorithm, kid: &str) -> (r: TokenHeader)
    ensures
        r.typ@ == "JWT"@,
        r.alg == alg,
        r.kid@ == kid@,
{
    TokenHeader { typ: "JWT".to_owned(), alg, kid: kid.to_owned() }
}

/// The header as serde_json writes jsonwebtoken's `Header` with only `typ`,
/// `alg` and `kid` set.
pub open spec fn header_text(h: TokenHeader) -> Seq<char> {
    seq!['{'] + member("typ"@, h.typ@) + seq![','] + member("alg"@, spec_algorithm_name(h.alg))
        + seq![','] + member("kid"@, h.kid@) + seq!['}']
}

/// The bytes of an ASCII text.
pub open spec fn ascii_bytes(s: Seq<char>) -> Seq<u8> {
    s.map_values(|c: char| (c as u32) as u8)
}

/// The URL-safe base64 alphabet.
pub open spec fn b64_alphabet() -> Seq<char> {
    seq![
        'A', 'B', 'C', 'D', 'E', 'F', 'G', 'H', 'I', 'J', 'K', 'L', 'M', 'N', 'O', 'P', 'Q', 'R',
        'S', 'T', 'U', 'V', 'W', 'X', 'Y', 'Z', 'a', 'b', 'c', 'd', 'e', 'f', 'g', 'h', 'i', 'j',
        'k', 'l', 'm', 'n', 'o', 'p', 'q', 'r', 's', 't', 'u', 'v', 'w', 'x', 'y', 'z', '0', '1',
        '2', '3', '4', '5', '6', '7', '8', '9', '-', '_',
    ]
}

/// URL-safe base64 without padding.
pub open spec fn b64url(b: Seq<u8>) -> Seq<char>
    decreases b.len(),
{
    let a = b64_alphabet();
    let x0 = b[0] as int;
    let x1 = b[1] as int;
    let x2 = b[2] as int;
    if b.len() == 0 {
        Seq::empty()
    } else if b.len() == 1 {
        seq![a[x0 / 4], a[(x0 % 4) * 16]]
    } else if b.len() == 2 {
        seq![a[x0 / 4], a[(x0 % 4) * 16 + x1 / 16], a[(x1 % 16) * 4]]
    } else {
        seq![a[x0 / 4], a[(x0 % 4) * 16 + x1 / 16], a[(x1 % 16) * 4 + x2 / 64], a[x2 % 64]]
            + b64url(b.skip(3))
    }
}

/// No character is a dot.
pub open spec fn dot_free(s: Seq<char>) -> bool {
    forall|i: int| 0 <= i < s.len() ==> s[i] != '.'
}

/// Every character is of the URL-safe base64 alphabet.
pub open spec fn b64url_text(s: Seq<char>) -> bool {
    forall|i: int| 0 <= i < s.len() ==> b64_alphabet().contains(s[i])
}

/// `t` is the compact token of the header and claims texts `h` and `c`
/// with signature segment `sig`, non-empty base64url text.
pub open spec fn compact_token(t: Seq<char>, h: Seq<char>, c: Seq<char>, sig: Seq<char>) -> bool {
    &&& t == b64url(ascii_bytes(h)) + seq!['.'] + b64url(ascii_bytes(c)) + seq!['.'] + sig
    &&& sig.len() > 0
    &&& b64url_text(sig)
}

/// `t` is a compact token of the header and claims texts `h` and `c`, under
/// some signature.
pub open spec fn token_signs(t: Seq<char>, h: Seq<char>, c: Seq<char>) -> bool {
    exists|sig: Seq<char>| compact_token(t, h, c, sig)
}

/// `c` opens and closes with a brace, so serde_json's `RawValue` keeps it
/// whole (it drops whitespace around a JSON value).
pub open spec fn braced(c: Seq<char>) -> bool {
    c.len() > 0 && c[0] == '{' && c[c.len() - 1] == '}'
}

/// Relies on jsonwebtoken's `encode`: the unpadded base64url segments of the
/// header's JSON (as `header_text` writes it) and of the claims' JSON, joined
/// by a dot, then a dot and the signature, which every algorithm's signer
/// hands back as non-empty base64url text. The claims text goes
/// through serde_json's `RawValue::from_string`, which keeps valid braced
/// JSON verbatim.
#[verifier::external_body]
fn encode_token(header: &TokenHeader, claims: &String, key: &EncodingKey) -> (r: Result<String, jsonwebtoken::errors::Error>)
    ensures
        r matches Ok(t) ==> (is_ascii_text(header_text(*header)) && is_ascii_text(claims@)
            && braced(claims@) ==> token_signs(t@, header_text(*header), claims@)),
{
    let alg = match header.alg {
        JwsAlgorithm::RS256 => jsonwebtoken::Algorithm::RS256,
        JwsAlgorithm::ES256 => jsonwebtoken::Algorithm::ES256,
        JwsAlgorithm::EdDSA => jsonwebtoken::Algorithm::EdDSA,
    };
    let typ = Some(header.typ.clone());
    let kid = Some(header.kid.clone());
    let h = jsonwebtoken::Header { typ, alg, kid, ..jsonwebtoken::Header::default() };
    let raw = serde_json::value::RawValue::from_string(claims.clone())?;
    jsonwebtoken::encode(&h, &raw, key)
}

/// A JSON member of two ASCII texts is ASCII.
proof fn lemma_member_ascii(name: Seq<char>, value: Seq<char>)
    requires
        is_ascii_text(name),
        is_ascii_text(value),
    ensures
        is_ascii_text(member(name, value)),
{
    lemma_json_string_ascii(name);
    lemma_json_string_ascii(value);
    lemma_ascii_concat(json_string(name), seq![':']);
    lemma_ascii_concat(json_string(name) + seq![':'], json_string(value));
}

/// The header of a family's token is ASCII.
proof fn lemma_header_ascii(h: TokenHeader, family: KeyFamily)
    requires
        header_of(h, family),
    ensures
        is_ascii_text(header_text(h)),
{
    reveal_strlit("typ");
    reveal_strlit("alg");
    reveal_strlit("kid");
    reveal_strlit("JWT");
    reveal_strlit("RS256");
    reveal_strlit("ES256");
    reveal_strlit("EdDSA");
    reveal_strlit("key-rsa");
    reveal_strlit("key-ec");
    reveal_strlit("key-ed");
    let alg = spec_algorithm_name(h.alg);
    assert(is_ascii_text(h.kid@));
    assert(is_ascii_text(alg));
    lemma_member_ascii("typ"@, h.typ@);
    lemma_member_ascii("alg"@, alg);
    lemma_member_ascii("kid"@, h.kid@);
    let p0 = seq!['{'] + member("typ"@, h.typ@);
    lemma_ascii_concat(seq!['{'], member("typ"@, h.typ@));
    lemma_ascii_concat(p0, seq![',']);
    lemma_ascii_concat(p0 + seq![','], member("alg"@, alg));
    let p1 = p0 + seq![','] + member("alg"@, alg);
    lemma_ascii_concat(p1, seq![',']);
    lemma_ascii_concat(p1 + seq![','], member("kid"@, h.kid@));
    lemma_ascii_concat(p1 + seq![','] + member("kid"@, h.kid@), seq!['}']);
}

/// The fixed claims text is ASCII.
proof fn lemma_fixed_claims_ascii()
    ensures
        is_ascii_text(fixed_claims_text()),
{
    reveal_strlit("iss");
    reveal_strlit("sub");
    reveal_strlit("exp");
    reveal_strlit("nbf");
    reveal_strlit("http://localhost:3001");
    reveal_strlit("b@b.com");
    assert(is_ascii_text(spec_issuer()));
    assert(is_ascii_text("b@b.com"@));
    lemma_member_ascii("iss"@, spec_issuer());
    lemma_member_ascii("sub"@, "b@b.com"@);
    lemma_json_string_ascii("exp"@);
    lemma_json_string_ascii("nbf"@);
    lemma_decimal_ascii(2000000000);
    lemma_decimal_ascii(1516239022);
    let p0 = seq!['{'] + member("iss"@, spec_issuer());
    lemma_ascii_concat(seq!['{'], member("iss"@, spec_issuer()));
    lemma_ascii_concat(p0, seq![',']);
    lemma_ascii_concat(p0 + seq![','], member("sub"@, "b@b.com"@));
    let p1 = p0 + seq![','] + member("sub"@, "b@b.com"@);
    lemma_ascii_concat(p1, seq![',']);
    lemma_ascii_concat(p1 + seq![','], json_string("exp"@));
    let p2 = p1 + seq![','] + json_string("exp"@);
    lemma_ascii_concat(p2, seq![':']);
    lemma_ascii_concat(p2 + seq![':'], decimal(2000000000));
    let p3 = p2 + seq![':'] + decimal(2000000000);
    lemma_ascii_concat(p3, seq![',']);
    lemma_ascii_concat(p3 + seq![','], json_string("nbf"@));
    let p4 = p3 + seq![','] + json_string("nbf"@);
    lemma_ascii_concat(p4, seq![':']);
    lemma_ascii_concat(p4 + seq![':'], decimal(1516239022));
    lemma_ascii_concat(p4 + seq![':'] + decimal(1516239022), seq!['}']);
}

/// The characters of the alphabet are not dots.
proof fn lemma_b64url_text_dot_free(s: Seq<char>)
    requires
        b64url_text(s),
    ensures
        dot_free(s),
{
    let a = b64_alphabet();
    assert(forall|k: int| 0 <= k < 64 ==> a[k] != '.');
    assert forall|i: int| 0 <= i < s.len() implies s[i] != '.' by {
        assert(a.contains(s[i]));
        let k = choose|k: int| 0 <= k < a.len() && a[k] == s[i];
    }
}

/// A character picked from the alphabet belongs to it.
proof fn lemma_alphabet_char(k: int)
    requires
        0 <= k < 64,
    ensures
        b64_alphabet().contains(b64_alphabet()[k]),
{
    assert(b64_alphabet().len() == 64);
}

/// Base64url encoding writes characters of its alphabet only.
proof fn lemma_b64url_text(b: Seq<u8>)
    ensures
        b64url_text(b64url(b)),
    decreases b.len(),
{
    let a = b64_alphabet();
    if b.len() > 0 {
        let x0 = b[0] as int;
        assert(0 <= x0 < 256);
        lemma_alphabet_char(x0 / 4);
        lemma_alphabet_char((x0 % 4) * 16);
        if b.len() >= 2 {
            let x1 = b[1] as int;
            assert(0 <= x1 < 256);
            lemma_alphabet_char((x0 % 4) * 16 + x1 / 16);
            lemma_alphabet_char((x1 % 16) * 4);
            if b.len() >= 3 {
                let x2 = b[2] as int;
                assert(0 <= x2 < 256);
                lemma_alphabet_char((x1 % 16) * 4 + x2 / 64);
                lemma_alphabet_char(x2 % 64);
                lemma_b64url_text(b.skip(3));
                let head = seq![a[x0 / 4], a[(x0 % 4) * 16 + x1 / 16], a[(x1 % 16) * 4 + x2 / 64], a[x2 % 64]];
                let whole = head + b64url(b.skip(3));
                assert forall|i: int| 0 <= i < whole.len() implies a.contains(whole[i]) by {
                    if i >= 4 {
                        assert(whole[i] == b64url(b.skip(3))[i - 4]);
                    }
                }
                assert(whole == b64url(b));
            }
        }
    }
}

/// `t` is three non-empty base64url segments joined by dots.
pub open spec fn three_segments(t: Seq<char>) -> bool {
    exists|a: Seq<char>, b: Seq<char>, c: Seq<char>|
        #![trigger a + seq!['.'] + b + seq!['.'] + c]
        t == a + seq!['.'] + b + seq!['.'] + c && a.len() > 0 && b.len() > 0 && c.len() > 0
            && b64url_text(a) && b64url_text(b) && b64url_text(c) && dot_free(a) && dot_free(b)
            && dot_free(c)
}

/// A compact token of a non-empty header and claims text is three non-empty
/// base64url segments joined by dots.
pub proof fn compact_token_has_three_segments(t: Seq<char>, h: Seq<char>, c: Seq<char>, sig: Seq<char>)
    requires
        compact_token(t, h, c, sig),
        h.len() > 0,
        c.len() > 0,
    ensures
        three_segments(t),
{
    let a = b64url(ascii_bytes(h));
    let b = b64url(ascii_bytes(c));
    lemma_b64url_text(ascii_bytes(h));
    lemma_b64url_text(ascii_bytes(c));
    lemma_b64url_text_dot_free(a);
    lemma_b64url_text_dot_free(b);
    lemma_b64url_text_dot_free(sig);
    reveal_with_fuel(b64url, 2);
    assert(ascii_bytes(h).len() > 0);
    assert(ascii_bytes(c).len() > 0);
    assert(a.len() > 0);
    assert(b.len() > 0);
    assert(t == a + seq!['.'] + b + seq!['.'] + sig);
}

/// A signing operation failed for the primary key of `family`.
#[derive(Clone, Copy, Debug, PartialEq, Eq, Structural)]
pub struct SigningError {
    pub family: KeyFamily,
}

/// A signed token, the header it was signed with, and which stored key signed it.
pub struct IssuedToken {
    pub header: TokenHeader,
    pub token: String,
    pub signed_by: Ghost<KeyIdentity>,
}

/// The header that the token of a family carries.
pub open spec fn header_of(h: TokenHeader, family: KeyFamily) -> bool {
    &&& h.typ@ == "JWT"@
    &&& h.alg == spec_algorithm(family)
    &&& h.kid@ == spec_key_id(KeyIdentity { family, role: KeyRole::Primary })
}

/// The token of `family` over the claims text `c`, signed by the family's
/// primary key.
pub open spec fn issued_for(t: IssuedToken, family: KeyFamily, c: Seq<char>) -> bool {
    &&& header_of(t.header, family)
    &&& t.signed_by@ == (KeyIdentity { family, role: KeyRole::Primary })
    &&& (is_ascii_text(header_text(t.header)) && is_ascii_text(c) && braced(c) ==> token_signs(
        t.token@,
        header_text(t.header),
        c,
    ))
}

/// The token of `family`, signed over the claims text `c`: its segments are
/// the encodings of its header's JSON and of `c`, then the signature.
pub open spec fn signed_for(t: IssuedToken, family: KeyFamily, c: Seq<char>) -> bool {
    &&& header_of(t.header, family)
    &&& t.signed_by@ == (KeyIdentity { family, role: KeyRole::Primary })
    &&& token_signs(t.token@, header_text(t.header), c)
}

/// The tokens of the three families, one each.
pub struct TokenSet {
    pub rsa: IssuedToken,
    pub ec: IssuedToken,
    pub ed: IssuedToken,
}

/// Signs the claims text with the primary key of `family`.
fn issue_one(store: &KeyStore, family: KeyFamily, claims: &String) -> (r: Result<IssuedToken, SigningError>)
    requires
        store.wf(),
    ensures
        r matches Ok(t) ==> issued_for(t, family, claims@),
        r matches Err(e) ==> e.family == family,
{
    let idx: usize = match family {
        KeyFamily::Rsa => 0,
        KeyFamily::EcP256 => 2,
        KeyFamily::Ed25519 => 4,
    };
    let id = KeyIdentity { family, role: KeyRole::Primary };
    let header = build_header(algorithm(family), key_id(id));
    proof {
        assert(crate::keys::spec_configured().len() == 6);
        assert(crate::store::handle_identities(store.handles@).len() == store.handles@.len());
        assert(crate::store::handle_identities(store.handles@)[idx as int] == id);
    }
    let signed = encode_token(&header, claims, &store.handles[idx].signer);
    match signed {
        Ok(token) => Ok(IssuedToken { header, token, signed_by: Ghost(store.handles@[idx as int].identity) }),
        Err(_) => Err(SigningError { family }),
    }
}

/// Signs `claims` once per family with the family's primary key. The first
/// signing failure fails the whole issuance.
pub fn issue(store: &KeyStore, claims: &Claims) -> (r: Result<TokenSet, SigningError>)
    requires
        store.wf(),
    ensures
        r matches Ok(ts) ==> issued_for(ts.rsa, KeyFamily::Rsa, claims_text(*claims))
            && issued_for(ts.ec, KeyFamily::EcP256, claims_text(*claims))
            && issued_for(ts.ed, KeyFamily::Ed25519, claims_text(*claims)),
{
    let text = claims_json(claims);
    let rsa = issue_one(store, KeyFamily::Rsa, &text)?;
    let ec = issue_one(store, KeyFamily::EcP256, &text)?;
    let ed = issue_one(store, KeyFamily::Ed25519, &text)?;
    Ok(TokenSet { rsa, ec, ed })
}

/// The token-issuance operation: the fixed claims, signed once per family.
pub fn tokens(store: &KeyStore) -> (r: Result<TokenSet, SigningError>)
    requires
        store.wf(),
    ensures
        r matches Ok(ts) ==> signed_for(ts.rsa, KeyFamily::Rsa, fixed_claims_text())
            && signed_for(ts.ec, KeyFamily::EcP256, fixed_claims_text())
            && signed_for(ts.ed, KeyFamily::Ed25519, fixed_claims_text()),
{
    let claims = fixed_claims();
    let r = issue(store, &claims);
    proof {
        assert(claims_text(claims) == fixed_claims_text());
        lemma_fixed_claims_ascii();
        assert(braced(fixed_claims_text()));
        if r is Ok {
            let ts = r->Ok_0;
            lemma_header_ascii(ts.rsa.header, KeyFamily::Rsa);
            lemma_header_ascii(ts.ec.header, KeyFamily::EcP256);
            lemma_header_ascii(ts.ed.header, KeyFamily::Ed25519);
        }
    }
    r
}

/// The JSON text of the token response.
pub open spec fn token_set_text(ts: TokenSet) -> Seq<char> {
    seq!['{'] + member("rsa"@, ts.rsa.token@) + seq![','] + member("ec"@, ts.ec.token@) + seq![',']
        + member("ed"@, ts.ed.token@) + seq!['}']
}

impl TokenSet {
    /// The token response as a JSON object keyed by family label.
    pub fn to_json(&self) -> (r: String)
        ensures
            r@ == token_set_text(*self),
    {
        let mut out: Vec<char> = Vec::new();
        out.push('{');
        push_json_string(&mut out, "rsa");
        out.push(':');
        push_json_string(&mut out, self.rsa.token.as_str());
        out.push(',');
        push_json_string(&mut out, "ec");
        out.push(':');
        push_json_string(&mut out, self.ec.token.as_str());
        out.push(',');
        push_json_string(&mut out, "ed");
        out.push(':');
        push_json_string(&mut out, self.ed.token.as_str());
        out.push('}');
        assert(out@ =~= token_set_text(*self));
        chars_to_string(out)
    }
}

/// Each token that the issuance hands out is three dot-separated segments.
pub proof fn issued_token_has_three_segments(t: IssuedToken, family: KeyFamily)
    requires
        signed_for(t, family, fixed_claims_text()),
    ensures
        three_segments(t.token@),
{
    let sig = choose|sig: Seq<char>|
        compact_token(t.token@, header_text(t.header), fixed_claims_text(), sig);
    assert(header_text(t.header)[0] == '{');
    assert(fixed_claims_text()[0] == '{');
    compact_token_has_three_segments(t.token@, header_text(t.header), fixed_claims_text(), sig);
}

/// The key id in each token's header is the key id of the key-set entry of
/// the family's primary key, and the algorithms agree.
pub proof fn token_key_ids_are_in_key_set(store: &KeyStore, ts: TokenSet)
    requires
        store.wf(),
        signed_for(ts.rsa, KeyFamily::Rsa, fixed_claims_text()),
        signed_for(ts.ec, KeyFamily::EcP256, fixed_claims_text()),
        signed_for(ts.ed, KeyFamily::Ed25519, fixed_claims_text()),
    ensures
        spec_key_set(store.handles@)[0].kid == ts.rsa.header.kid@,
        spec_key_set(store.handles@)[0].alg == ts.rsa.header.alg,
        spec_key_set(store.handles@)[2].kid == ts.ec.header.kid@,
        spec_key_set(store.handles@)[2].alg == ts.ec.header.alg,
        spec_key_set(store.handles@)[4].kid == ts.ed.header.kid@,
        spec_key_set(store.handles@)[4].alg == ts.ed.header.alg,
{
    let ids = handle_identities(store.handles@);
    assert(spec_configured().len() == 6);
    assert(ids.len() == store.handles@.len());
    assert(ids[0] == store.handles@[0].identity);
    assert(ids[2] == store.handles@[2].identity);
    assert(ids[4] == store.handles@[4].identity);
}

} // verus!
