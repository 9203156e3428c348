//! The public key set: one entry per loaded key, tagged with the key id and
//! algorithm of the shared table, and its JSON text.

use vstd::prelude::*;
use crate::json::{chars_to_string, json_string, push_json_string, push_str};
use crate::keys::{
    algorithm, algorithm_name, key_id, spec_algorithm, spec_algorithm_name, spec_configured,
    spec_key_id, JwsAlgorithm, KeyFamily,
};
use crate::store::{
    handle_identities, params_family, params_view, KeyPairHandle, KeyStore, PublicParams,
};

verus! {

/// One member of the public key set.
pub struct JwkEntry {
    pub kid: String,
    pub alg: JwsAlgorithm,
    pub key_use: String,
    pub params: PublicParams,
}

/// What a key-set entry says, as mathematical values.
pub struct EntryView {
    pub kid: Seq<char>,
    pub alg: JwsAlgorithm,
    pub key_use: Seq<char>,
    pub family: KeyFamily,
    pub params: Seq<(Seq<char>, Seq<char>)>,
}

pub open spec fn entry_view(e: JwkEntry) -> EntryView {
    EntryView {
        kid: e.kid@,
        alg: e.alg,
        key_use: e.key_use@,
        family: params_family(&e.params),
        params: params_view(&e.params),
    }
}

/// The entry that the key set holds for a loaded key.
pub open spec fn handle_entry(h: KeyPairHandle) -> EntryView {
    EntryView {
        kid: spec_key_id(h.identity),
        alg: spec_algorithm(h.identity.family),
        key_use: "sig"@,
        family: params_family(&h.params),
        params: params_view(&h.params),
    }
}

/// The key type member of a JWK of the given family.
pub open spec fn spec_kty(family: KeyFamily) -> Seq<char> {
    match family {
        KeyFamily::Rsa => "RSA"@,
        KeyFamily::EcP256 => "EC"@,
        KeyFamily::Ed25519 => "OKP"@,
    }
}

/// A JSON object member with a string value.
pub open spec fn member(name: Seq<char>, value: Seq<char>) -> Seq<char> {
    json_string(name) + seq![':'] + json_string(value)
}

/// Members, each preceded by a comma.
pub open spec fn trailing_members(ps: Seq<(Seq<char>, Seq<char>)>) -> Seq<char>
    decreases ps.len(),
{
    if ps.len() == 0 {
        Seq::empty()
    } else {
        trailing_members(ps.drop_last()) + seq![','] + member(ps.last().0, ps.last().1)
    }
}

/// The JSON object of one entry.
pub open spec fn entry_text(v: EntryView) -> Seq<char> {
    seq!['{'] + member("kty"@, spec_kty(v.family)) + seq![','] + member("kid"@, v.kid) + seq![',']
        + member("alg"@, spec_algorithm_name(v.alg)) + seq![','] + member("use"@, v.key_use)
        + trailing_members(v.params) + seq!['}']
}

/// The entries' objects separated by commas.
pub open spec fn entries_text(vs: Seq<EntryView>) -> Seq<char>
    decreases vs.len(),
{
    if vs.len() == 0 {
        Seq::empty()
    } else if vs.len() == 1 {
        entry_text(vs[0])
    } else {
        entries_text(vs.drop_last()) + seq![','] + entry_text(vs.last())
    }
}

/// The JSON text of a key set.
pub open spec fn key_set_text(vs: Seq<EntryView>) -> Seq<char> {
    "{\"keys\":["@ + entries_text(vs) + "]}"@
}

/// The entries that the key set of the given handles holds, in order.
pub open spec fn spec_key_set(hs: Seq<KeyPairHandle>) -> Seq<EntryView> {
    hs.map_values(|h: KeyPairHandle| handle_entry(h))
}

/// The key-set entry of one loaded key.
pub fn build_entry(h: &KeyPairHandle) -> (r: JwkEntry)
    ensures
        entry_view(r) == handle_entry(*h),
{
    let kid = key_id(h.identity).to_owned();
    let alg = algorithm(h.identity.family);
    let key_use = "sig".to_owned();
    let params = h.params.copy();
    JwkEntry { kid, alg, key_use, params }
}

/// The key set of the store: one entry per handle, in the store's order.
pub fn build_key_set(store: &KeyStore) -> (r: Vec<JwkEntry>)
    ensures
        r@.map_values(|e: JwkEntry| entry_view(e)) == spec_key_set(store.handles@),
{
    let mut r: Vec<JwkEntry> = Vec::new();
    let mut i: usize = 0;
    while i < store.handles.len()
        invariant
            i <= store.handles@.len(),
            r@.len() == i,
            forall|j: int|
                0 <= j < i ==> entry_view(#[trigger] r@[j]) == handle_entry(store.handles@[j]),
        decreases store.handles@.len() - i,
    {
        let e = build_entry(&store.handles[i]);
        r.push(e);
        i = i + 1;
    }
    assert(r@.map_values(|e: JwkEntry| entry_view(e)) =~= spec_key_set(store.handles@));
    r
}

/// Appends `,"name":"value"`.
fn push_trailing_member(out: &mut Vec<char>, name: &str, value: &str)
    ensures
        final(out)@ == old(out)@ + seq![','] + member(name@, value@),
{
    out.push(',');
    push_json_string(out, name);
    out.push(':');
    push_json_string(out, value);
    assert(final(out)@ =~= old(out)@ + seq![','] + member(name@, value@));
}

/// Appends the members of the public parameters.
fn push_params(out: &mut Vec<char>, p: &PublicParams)
    ensures
        final(out)@ == old(out)@ + trailing_members(params_view(p)),
{
    let ghost start = out@;
    let ghost ps = params_view(p);
    match p {
        PublicParams::Rsa { n, e } => {
            proof {
                reveal_strlit("n");
                reveal_strlit("e");
            }
            push_trailing_member(out, "n", n.as_str());
            push_trailing_member(out, "e", e.as_str());
            assert(ps.drop_last().drop_last() =~= Seq::<(Seq<char>, Seq<char>)>::empty());
        },
        PublicParams::Ec { crv, x, y } => {
            proof {
                reveal_strlit("crv");
                reveal_strlit("x");
                reveal_strlit("y");
            }
            push_trailing_member(out, "crv", crv.as_str());
            push_trailing_member(out, "x", x.as_str());
            push_trailing_member(out, "y", y.as_str());
            assert(ps.drop_last().drop_last().drop_last()
                =~= Seq::<(Seq<char>, Seq<char>)>::empty());
        },
        PublicParams::Okp { crv, x } => {
            proof {
                reveal_strlit("crv");
                reveal_strlit("x");
            }
            push_trailing_member(out, "crv", crv.as_str());
            push_trailing_member(out, "x", x.as_str());
            assert(ps.drop_last().drop_last() =~= Seq::<(Seq<char>, Seq<char>)>::empty());
        },
    }
    proof {
        reveal_with_fuel(trailing_members, 4);
    }
    assert(out@ =~= start + trailing_members(ps));
}

/// The key type member of a JWK of the given family.
fn kty_name(family: KeyFamily) -> (r: &'static str)
    ensures
        r@ == spec_kty(family),
{
    match family {
        KeyFamily::Rsa => "RSA",
        KeyFamily::EcP256 => "EC",
        KeyFamily::Ed25519 => "OKP",
    }
}

/// Appends the JSON object of one entry.
fn push_entry(out: &mut Vec<char>, e: &JwkEntry)
    ensures
        final(out)@ == old(out)@ + entry_text(entry_view(*e)),
{
    let ghost start = out@;
    let family = match &e.params {
        PublicParams::Rsa { .. } => KeyFamily::Rsa,
        PublicParams::Ec { .. } => KeyFamily::EcP256,
        PublicParams::Okp { .. } => KeyFamily::Ed25519,
    };
    out.push('{');
    push_json_string(out, "kty");
    out.push(':');
    push_json_string(out, kty_name(family));
    push_trailing_member(out, "kid", e.kid.as_str());
    push_trailing_member(out, "alg", algorithm_name(e.alg));
    push_trailing_member(out, "use", e.key_use.as_str());
    push_params(out, &e.params);
    out.push('}');
    assert(out@ =~= start + entry_text(entry_view(*e)));
}

impl JwkEntry {
    /// The entry as a JSON object.
    pub fn to_json(&self) -> (r: String)
        ensures
            r@ == entry_text(entry_view(*self)),
    {
        let mut out: Vec<char> = Vec::new();
        push_entry(&mut out, self);
        assert(out@ =~= entry_text(entry_view(*self)));
        chars_to_string(out)
    }
}

/// The JSON text of a key set: `{"keys":[...]}` with the entries in order.
pub fn key_set_json(entries: &Vec<JwkEntry>) -> (r: String)
    ensures
        r@ == key_set_text(entries@.map_values(|e: JwkEntry| entry_view(e))),
{
    let ghost vs = entries@.map_values(|e: JwkEntry| entry_view(e));
    let mut out: Vec<char> = Vec::new();
    push_str(&mut out, "{\"keys\":[");
    let ghost start = out@;
    let mut i: usize = 0;
    while i < entries.len()
        invariant
            i <= entries@.len(),
            vs == entries@.map_values(|e: JwkEntry| entry_view(e)),
            out@ == start + entries_text(vs.take(i as int)),
        decreases entries@.len() - i,
    {
        if i > 0 {
            out.push(',');
        }
        push_entry(&mut out, &entries[i]);
        proof {
            let t = vs.take(i + 1);
            assert(t.drop_last() =~= vs.take(i as int));
            assert(t.last() == entry_view(entries@[i as int]));
            if i == 0 {
                assert(t.len() == 1);
            }
        }
        i = i + 1;
    }
    push_str(&mut out, "]}");
    assert(vs.take(entries@.len() as int) =~= vs);
    assert(out@ =~= key_set_text(vs));
    chars_to_string(out)
}

/// The key-set response of the store, built afresh.
pub fn jwks(store: &KeyStore) -> (r: String)
    ensures
        r@ == key_set_text(spec_key_set(store.handles@)),
{
    let entries = build_key_set(store);
    key_set_json(&entries)
}

/// The key ids of the configured keys, in configuration order.
pub open spec fn configured_key_ids() -> Seq<Seq<char>> {
    seq!["key-rsa"@, "rsa01"@, "key-ec"@, "ec01"@, "key-ed"@, "ed01"@]
}

/// The key set of a loaded store has six entries, whose key ids are those of
/// the table in configuration order, each for signatures, with its family's
/// algorithm.
pub proof fn key_set_of_loaded_store(store: &KeyStore)
    requires
        store.wf(),
    ensures
        spec_key_set(store.handles@).len() == 6,
        spec_key_set(store.handles@).map_values(|v: EntryView| v.kid) == configured_key_ids(),
        forall|i: int|
            0 <= i < 6 ==> (#[trigger] spec_key_set(store.handles@)[i]).key_use == "sig"@
                && spec_key_set(store.handles@)[i].alg == spec_algorithm(
                spec_configured()[i].family,
            ) && spec_key_set(store.handles@)[i].family == spec_configured()[i].family,
{
    let ids = handle_identities(store.handles@);
    assert(spec_configured().len() == 6);
    assert(ids.len() == store.handles@.len());
    assert forall|i: int| 0 <= i < 6 implies store.handles@[i].identity == spec_configured()[i] by {
        assert(ids[i] == store.handles@[i].identity);
    }
    assert(spec_key_set(store.handles@).map_values(|v: EntryView| v.kid) =~= configured_key_ids());
}

/// The names of the private members of a JWK.
pub open spec fn private_param_names() -> Set<Seq<char>> {
    set!["d"@, "p"@, "q"@, "dp"@, "dq"@, "qi"@]
}

/// No key-set entry carries a private member: every parameter it holds is
/// named other than the private members of a JWK.
pub proof fn key_set_holds_no_private_parameter(hs: Seq<KeyPairHandle>)
    ensures
        forall|i: int, j: int|
            0 <= i < spec_key_set(hs).len() && 0 <= j < spec_key_set(hs)[i].params.len()
                ==> !private_param_names().contains(
                #[trigger] spec_key_set(hs)[i].params[j].0,
            ),
{
    reveal_strlit("n");
    reveal_strlit("e");
    reveal_strlit("crv");
    reveal_strlit("x");
    reveal_strlit("y");
    reveal_strlit("d");
    reveal_strlit("p");
    reveal_strlit("q");
    reveal_strlit("dp");
    reveal_strlit("dq");
    reveal_strlit("qi");
    assert forall|i: int, j: int|
        0 <= i < spec_key_set(hs).len() && 0 <= j < spec_key_set(hs)[i].params.len()
            implies !private_param_names().contains(#[trigger] spec_key_set(hs)[i].params[j].0) by {
        let name = spec_key_set(hs)[i].params[j].0;
        assert(name == "n"@ || name == "e"@ || name == "crv"@ || name == "x"@ || name == "y"@);
        assert(name.len() == 3 || name.len() == 1 && (name[0] == 'n' || name[0] == 'e' || name[0]
            == 'x' || name[0] == 'y'));
        assert(name.len() != 2);
    }
}

/// The key-set text depends on the loaded keys alone: stores whose keys have
/// the same identities and public parameters, in the same order, give the
/// same text.
pub proof fn key_set_text_is_deterministic(a: &KeyStore, b: &KeyStore)
    requires
        a.handles@.len() == b.handles@.len(),
        forall|i: int|
            0 <= i < a.handles@.len() ==> (#[trigger] a.handles@[i]).identity == b.handles@[i].identity
                && params_view(&a.handles@[i].params) == params_view(&b.handles@[i].params)
                && params_family(&a.handles@[i].params) == params_family(&b.handles@[i].params),
    ensures
        key_set_text(spec_key_set(a.handles@)) == key_set_text(spec_key_set(b.handles@)),
{
    assert(spec_key_set(a.handles@) =~= spec_key_set(b.handles@));
}

} // verus!
