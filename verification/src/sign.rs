//! Request signing: the parameters of a request, in the order of their keys,
//! joined with the shared secret and digested.

use crate::json::{
    distinct_keys, entries_model, find_entry, keys, lemma_object_view, lemma_position,
    lemma_position_is, lookup, position, with_entry, JsonModel, JsonNumber, JsonValue,
    NumberModel,
};
use crate::text::{
    decimal, lemma_str_order_total, push_decimal, push_signed_decimal, signed_decimal, str_le,
    str_leq, str_order,
};
use crypto::digest::Digest;
use vstd::prelude::*;
use vstd::relations::*;
use vstd::seq_lib::*;
use vstd::string::*;

verus! {

/// Why a set of parameters cannot be signed.
#[derive(Debug, Clone, Copy, PartialEq, Eq, Structural)]
pub enum SignError {
    /// The parameters are not an object whose values are all scalars.
    NotAnObject,
}

/// The MD5 digest of the UTF-8 bytes of `text`, as 32 lower-case hexadecimal digits.
pub uninterp spec fn md5_hex(text: Seq<char>) -> Seq<char>;

/// Whether `c` is a hexadecimal digit in lower case.
pub open spec fn is_lower_hex(c: char) -> bool {
    ('0' <= c && c <= '9') || ('a' <= c && c <= 'f')
}

/// Whether `s` is 32 hexadecimal digits in lower case, as the text of a
/// digest of 128 bits is.
pub open spec fn is_hex_digest(s: Seq<char>) -> bool {
    s.len() == 32 && forall|i: int| 0 <= i < 32 ==> is_lower_hex(#[trigger] s[i])
}

/// Digests `text` with `crypto::md5::Md5`: `Digest::input_str` is fed the text
/// once, and `Digest::result_str` gives the digest of 16 bytes as hexadecimal
/// text, two digits in lower case for each byte. The result depends on the
/// text alone.
#[verifier::external_body]
fn md5_digest(text: &str) -> (hex: String)
    ensures
        hex@ == md5_hex(text@),
        is_hex_digest(hex@),
{
    let mut hasher = crypto::md5::Md5::new();
    hasher.input_str(text);
    hasher.result_str()
}

/// Whether `v` is neither an array nor an object.
pub open spec fn is_scalar(v: JsonModel) -> bool {
    !(v is Array) && !(v is Object)
}

/// Whether every entry of `entries` has a scalar value.
pub open spec fn all_scalar(entries: Seq<(Seq<char>, JsonModel)>) -> bool {
    forall|i: int| 0 <= i < entries.len() ==> is_scalar(#[trigger] entries[i].1)
}

/// Whether `v` is an object whose values are all scalars.
pub open spec fn is_flat_object(v: JsonModel) -> bool {
    v is Object && all_scalar(v->Object_0)
}

/// The text of a number in the signing text.
pub open spec fn number_text(n: NumberModel) -> Seq<char> {
    match n {
        NumberModel::PosInt(u) => decimal(u as nat),
        NumberModel::NegInt(i) => signed_decimal(i as int),
        NumberModel::Float(t) => t,
    }
}

/// The text of a scalar in the signing text: a string as it is, any other
/// scalar as its JSON text.
pub open spec fn scalar_text(v: JsonModel) -> Seq<char> {
    match v {
        JsonModel::Null => seq!['n', 'u', 'l', 'l'],
        JsonModel::Bool(b) => if b {
            seq!['t', 'r', 'u', 'e']
        } else {
            seq!['f', 'a', 'l', 's', 'e']
        },
        JsonModel::Number(n) => number_text(n),
        JsonModel::String(s) => s,
        _ => Seq::empty(),
    }
}

/// `key=value` for the parameter `key`.
pub open spec fn pair_text(entries: Seq<(Seq<char>, JsonModel)>, key: Seq<char>) -> Seq<char> {
    key + seq!['='] + match lookup(entries, key) {
        Some(v) => scalar_text(v),
        None => Seq::empty(),
    }
}

/// The pairs of the keys `ks`, in that order, joined with `&`.
pub open spec fn joined(entries: Seq<(Seq<char>, JsonModel)>, ks: Seq<Seq<char>>) -> Seq<char>
    decreases ks.len(),
{
    if ks.len() == 0 {
        Seq::empty()
    } else if ks.len() == 1 {
        pair_text(entries, ks[0])
    } else {
        joined(entries, ks.drop_last()) + seq!['&'] + pair_text(entries, ks.last())
    }
}

/// The text that is digested: the pairs in the byte-wise order of their keys,
/// joined with `&`, and the secret right behind them.
pub open spec fn signing_text(entries: Seq<(Seq<char>, JsonModel)>, secret: Seq<char>) -> Seq<
    char,
> {
    joined(entries, keys(entries).sort_by(str_order())) + secret
}

/// The signature of the parameters `entries` under `secret`.
pub open spec fn signature(entries: Seq<(Seq<char>, JsonModel)>, secret: Seq<char>) -> Seq<char> {
    md5_hex(signing_text(entries, secret))
}

/// The key of the entry that signing adds.
pub open spec fn sign_key() -> Seq<char> {
    seq!['s', 'i', 'g', 'n']
}

/// What signing `params` under `secret` gives.
pub open spec fn signed(params: JsonModel, secret: Seq<char>) -> Result<JsonModel, SignError> {
    if is_flat_object(params) {
        let entries = params->Object_0;
        Ok(
            JsonModel::Object(
                with_entry(entries, sign_key(), JsonModel::String(signature(entries, secret))),
            ),
        )
    } else {
        Err(SignError::NotAnObject)
    }
}

/// The strings that `ks` refers to, in order.
pub open spec fn key_views(ks: Seq<&String>) -> Seq<Seq<char>> {
    Seq::new(ks.len(), |i: int| ks[i]@)
}

/// Whether `v` is neither an array nor an object.
fn value_is_scalar(v: &JsonValue) -> (r: bool)
    ensures
        r == is_scalar(v@),
{
    match v {
        JsonValue::Array(_) => false,
        JsonValue::Object(_) => false,
        _ => true,
    }
}

/// Whether every entry of `entries` has a scalar value.
fn entries_all_scalar(entries: &Vec<(String, JsonValue)>) -> (r: bool)
    ensures
        r == all_scalar(entries_model(entries@)),
{
    let mut i: usize = 0;
    while i < entries.len()
        invariant
            i <= entries.len(),
            forall|k: int| 0 <= k < i ==> is_scalar(#[trigger] entries_model(entries@)[k].1),
        decreases entries.len() - i,
    {
        if !value_is_scalar(&entries[i].1) {
            assert(!is_scalar(entries_model(entries@)[i as int].1));
            return false;
        }
        i = i + 1;
    }
    true
}

/// Appends the text of the scalar `v` to `out`.
fn push_scalar(out: &mut String, v: &JsonValue)
    requires
        is_scalar(v@),
    ensures
        final(out)@ == old(out)@ + scalar_text(v@),
{
    match v {
        JsonValue::Null => {
            proof {
                reveal_strlit("null");
            }
            out.append("null");
            assert("null"@ =~= seq!['n', 'u', 'l', 'l']);
        },
        JsonValue::Bool(b) => {
            if *b {
                proof {
                    reveal_strlit("true");
                }
                out.append("true");
                assert("true"@ =~= seq!['t', 'r', 'u', 'e']);
            } else {
                proof {
                    reveal_strlit("false");
                }
                out.append("false");
                assert("false"@ =~= seq!['f', 'a', 'l', 's', 'e']);
            }
        },
        JsonValue::Number(n) => {
            match n {
                JsonNumber::PosInt(u) => {
                    push_decimal(out, *u);
                },
                JsonNumber::NegInt(i) => {
                    push_signed_decimal(out, *i);
                },
                JsonNumber::Float(t) => {
                    out.append(t.as_str());
                },
            }
        },
        JsonValue::String(t) => {
            out.append(t.as_str());
        },
        _ => {
            assert(old(out)@ + Seq::<char>::empty() =~= old(out)@);
        },
    }
}

/// The place at which `key` goes into the sorted keys `ks`: behind every key
/// that comes before it or equals it.
fn insertion_point(ks: &Vec<&String>, key: &str) -> (p: usize)
    ensures
        p <= ks.len(),
        forall|q: int| 0 <= q < p ==> str_leq((#[trigger] ks[q])@, key@),
        p < ks.len() ==> !str_leq(ks[p as int]@, key@),
{
    let mut p: usize = 0;
    while p < ks.len()
        invariant
            p <= ks.len(),
            forall|q: int| 0 <= q < p ==> str_leq((#[trigger] ks[q])@, key@),
        decreases ks.len() - p,
    {
        if !str_le(ks[p].as_str(), key) {
            return p;
        }
        p = p + 1;
    }
    p
}

/// Putting `key` at its insertion point keeps sorted keys sorted.
proof fn lemma_insert_sorted(s: Seq<Seq<char>>, p: int, key: Seq<char>)
    requires
        sorted_by(s, str_order()),
        0 <= p <= s.len(),
        forall|q: int| 0 <= q < p ==> str_leq(#[trigger] s[q], key),
        p < s.len() ==> !str_leq(s[p], key),
    ensures
        sorted_by(s.insert(p, key), str_order()),
{
    let t = s.insert(p, key);
    let r = str_order();
    lemma_str_order_total();
    assert forall|i: int, j: int| 0 <= i < j < t.len() implies #[trigger] r(t[i], t[j]) by {
        if j < p {
            assert(r(s[i], s[j]));
        } else if j == p {
            assert(str_leq(s[i], key));
        } else if i == p {
            assert(r(s[p], key) || r(key, s[p]));
            if j - 1 > p {
                assert(r(s[p], s[j - 1]));
            }
            assert(r(key, s[p]) && r(s[p], s[j - 1]) ==> r(key, s[j - 1]));
        } else if i < p {
            assert(r(s[i], s[j - 1]));
        } else {
            assert(r(s[i - 1], s[j - 1]));
        }
    }
}

/// The keys of `entries` in the byte-wise order.
fn sorted_keys(entries: &Vec<(String, JsonValue)>) -> (ks: Vec<&String>)
    ensures
        key_views(ks@) == keys(entries_model(entries@)).sort_by(str_order()),
{
    let ghost all = keys(entries_model(entries@));
    let mut ks: Vec<&String> = Vec::new();
    let mut i: usize = 0;
    proof {
        assert(key_views(ks@) =~= Seq::<Seq<char>>::empty());
        assert(all.take(0) =~= Seq::<Seq<char>>::empty());
    }
    while i < entries.len()
        invariant
            i <= entries.len(),
            all == keys(entries_model(entries@)),
            sorted_by(key_views(ks@), str_order()),
            key_views(ks@).to_multiset() == all.take(i as int).to_multiset(),
        decreases entries.len() - i,
    {
        let key: &String = &entries[i].0;
        let p: usize = insertion_point(&ks, key.as_str());
        let ghost before = key_views(ks@);
        ks.insert(p, key);
        proof {
            assert(key_views(ks@) =~= before.insert(p as int, key@));
            lemma_insert_sorted(before, p as int, key@);
            to_multiset_insert(before, p as int, key@);
            assert(all.take(i + 1) =~= all.take(i as int).push(key@));
            to_multiset_build(all.take(i as int), key@);
        }
        i = i + 1;
    }
    proof {
        assert(all.take(i as int) =~= all);
        lemma_str_order_total();
        all.lemma_sort_by_ensures(str_order());
        lemma_sorted_unique(key_views(ks@), all.sort_by(str_order()), str_order());
    }
    ks
}

/// The pairs of the keys `ks`, in that order, joined with `&`.
fn join_pairs(entries: &Vec<(String, JsonValue)>, ks: &Vec<&String>) -> (text: String)
    requires
        all_scalar(entries_model(entries@)),
    ensures
        text@ == joined(entries_model(entries@), key_views(ks@)),
{
    let ghost em = entries_model(entries@);
    let ghost kv = key_views(ks@);
    let mut text: String = String::new();
    let mut j: usize = 0;
    proof {
        assert(kv.take(0) =~= Seq::<Seq<char>>::empty());
    }
    while j < ks.len()
        invariant
            j <= ks.len(),
            em == entries_model(entries@),
            kv == key_views(ks@),
            all_scalar(em),
            text@ == joined(em, kv.take(j as int)),
        decreases ks.len() - j,
    {
        let ghost before = text@;
        let key: &str = ks[j].as_str();
        if j > 0 {
            text.push('&');
        }
        text.append(key);
        text.push('=');
        let p: usize = find_entry(entries, key);
        if p < entries.len() {
            assert(is_scalar(em[p as int].1));
            push_scalar(&mut text, &entries[p].1);
        }
        proof {
            let next = kv.take(j + 1);
            assert(next.drop_last() =~= kv.take(j as int));
            assert(next.last() == kv[j as int]);
            assert(kv[j as int] == key@);
            let tail = match lookup(em, key@) {
                Some(v) => scalar_text(v),
                None => Seq::<char>::empty(),
            };
            if j > 0 {
                assert(text@ =~= before + seq!['&'] + (key@ + seq!['='] + tail));
            } else {
                assert(before =~= Seq::<char>::empty());
                assert(text@ =~= key@ + seq!['='] + tail);
            }
        }
        j = j + 1;
    }
    proof {
        assert(kv.take(j as int) =~= kv);
    }
    text
}

/// What `signing_string` gives for `params` and `secret`.
pub open spec fn signing_string_of(params: JsonModel, secret: Seq<char>) -> Result<
    Seq<char>,
    SignError,
> {
    if is_flat_object(params) {
        Ok(signing_text(params->Object_0, secret))
    } else {
        Err(SignError::NotAnObject)
    }
}

/// `params` with the entry `sign` set to the string `digest`, where `params`
/// is an object; else `params` as it is.
pub open spec fn with_sign(params: JsonModel, digest: Seq<char>) -> JsonModel {
    match params {
        JsonModel::Object(entries) => JsonModel::Object(
            with_entry(entries, sign_key(), JsonModel::String(digest)),
        ),
        _ => params,
    }
}

/// The text that is digested to sign `params` with the secret `app_sec`: the
/// pairs `key=value` in the byte-wise order of the keys, joined with `&`, and
/// the secret right behind them.
pub fn signing_string(params: &JsonValue, app_sec: &str) -> (r: Result<String, SignError>)
    ensures
        match r {
            Ok(text) => signing_string_of(params@, app_sec@) == Ok::<Seq<char>, SignError>(text@),
            Err(e) => signing_string_of(params@, app_sec@) == Err::<Seq<char>, SignError>(e),
        },
{
    match params {
        JsonValue::Object(entries) => {
            proof {
                lemma_object_view(*entries);
            }
            if !entries_all_scalar(entries) {
                return Err(SignError::NotAnObject);
            }
            let ks: Vec<&String> = sorted_keys(entries);
            let mut text: String = join_pairs(entries, &ks);
            text.append(app_sec);
            Ok(text)
        },
        _ => Err(SignError::NotAnObject),
    }
}

/// Sets the entry `sign` of the object `params` to the string `digest`: an
/// entry with that key gets the value; if there is none, a new entry is added
/// at the end. What is no object is left as it is.
pub fn attach_sign(params: JsonValue, digest: String) -> (r: JsonValue)
    ensures
        r@ == with_sign(params@, digest@),
{
    match params {
        JsonValue::Object(mut entries) => {
            let ghost em = entries_model(entries@);
            proof {
                lemma_object_view(entries);
                reveal_strlit("sign");
                assert("sign"@ =~= sign_key());
            }
            let p: usize = find_entry(&entries, "sign");
            let key: String = String::from_str("sign");
            let value: JsonValue = JsonValue::String(digest);
            if p < entries.len() {
                entries.set(p, (key, value));
            } else {
                entries.push((key, value));
            }
            proof {
                lemma_object_view(entries);
                assert(entries_model(entries@) =~= with_entry(em, sign_key(), value@));
            }
            JsonValue::Object(entries)
        },
        other => other,
    }
}

/// Signs the parameters `params` with the secret `app_sec`.
///
/// The parameters must be an object whose values are all scalars; anything
/// else is refused. The result is the object with the entry `sign` set to the
/// signature: the digest of the signing string.
pub fn sign_form(params: JsonValue, app_sec: &str) -> (r: Result<JsonValue, SignError>)
    ensures
        match r {
            Ok(v) => signed(params@, app_sec@) == Ok::<JsonModel, SignError>(v@)
                && is_hex_digest(signature(params@->Object_0, app_sec@)),
            Err(e) => signed(params@, app_sec@) == Err::<JsonModel, SignError>(e),
        },
{
    match signing_string(&params, app_sec) {
        Ok(text) => {
            let hex: String = md5_digest(text.as_str());
            Ok(attach_sign(params, hex))
        },
        Err(e) => Err(e),
    }
}

/// Entry lists with the same entries, in whatever order, have the same keys,
/// in whatever order.
pub proof fn lemma_keys_permuted(
    a: Seq<(Seq<char>, JsonModel)>,
    b: Seq<(Seq<char>, JsonModel)>,
)
    requires
        a.to_multiset() == b.to_multiset(),
    ensures
        keys(a).to_multiset() == keys(b).to_multiset(),
    decreases a.len(),
{
    broadcast use vstd::multiset::group_multiset_axioms;

    a.to_multiset_ensures();
    b.to_multiset_ensures();
    if a.len() == 0 {
        assert(keys(a) =~= keys(b));
    } else {
        let e = a[0];
        assert(a.contains(e));
        assert(b.to_multiset().count(e) > 0);
        assert(b.contains(e));
        let j = choose|j: int| 0 <= j < b.len() && b[j] == e;
        let a1 = a.remove(0);
        let b1 = b.remove(j);
        to_multiset_remove(a, 0);
        to_multiset_remove(b, j);
        lemma_keys_permuted(a1, b1);
        assert(keys(a) =~= keys(a1).insert(0, e.0));
        assert(keys(b) =~= keys(b1).insert(j, e.0));
        to_multiset_insert(keys(a1), 0, e.0);
        to_multiset_insert(keys(b1), j, e.0);
    }
}

/// Where keys are distinct, an entry is what `lookup` finds for its key.
pub proof fn lemma_lookup_distinct(entries: Seq<(Seq<char>, JsonModel)>, i: int)
    requires
        distinct_keys(entries),
        0 <= i < entries.len(),
    ensures
        lookup(entries, entries[i].0) == Some(entries[i].1),
{
    let key = entries[i].0;
    lemma_position(entries, key);
    let p = position(entries, key);
    if p != i {
        assert(p < i);
        assert(keys(entries)[p] == keys(entries)[i]);
    }
}

/// Entry lists with the same entries and distinct keys give every key the
/// same pair.
pub proof fn lemma_pair_text_permuted(
    a: Seq<(Seq<char>, JsonModel)>,
    b: Seq<(Seq<char>, JsonModel)>,
    key: Seq<char>,
)
    requires
        distinct_keys(a),
        distinct_keys(b),
        a.to_multiset() == b.to_multiset(),
        keys(a).contains(key),
    ensures
        pair_text(a, key) == pair_text(b, key),
{
    broadcast use vstd::multiset::group_multiset_axioms;

    a.to_multiset_ensures();
    b.to_multiset_ensures();
    let i = choose|i: int| 0 <= i < keys(a).len() && keys(a)[i] == key;
    let e = a[i];
    assert(a.contains(e));
    assert(b.to_multiset().count(e) > 0);
    assert(b.contains(e));
    let j = choose|j: int| 0 <= j < b.len() && b[j] == e;
    lemma_lookup_distinct(a, i);
    lemma_lookup_distinct(b, j);
}

/// Entry lists with the same entries and distinct keys give the same joined
/// text for keys taken in the same order.
pub proof fn lemma_joined_permuted(
    a: Seq<(Seq<char>, JsonModel)>,
    b: Seq<(Seq<char>, JsonModel)>,
    ks: Seq<Seq<char>>,
)
    requires
        distinct_keys(a),
        distinct_keys(b),
        a.to_multiset() == b.to_multiset(),
        forall|i: int| 0 <= i < ks.len() ==> keys(a).contains(#[trigger] ks[i]),
    ensures
        joined(a, ks) == joined(b, ks),
    decreases ks.len(),
{
    if ks.len() == 1 {
        lemma_pair_text_permuted(a, b, ks[0]);
    } else if ks.len() > 1 {
        lemma_joined_permuted(a, b, ks.drop_last());
        lemma_pair_text_permuted(a, b, ks.last());
    }
}

/// The order of the parameters does not matter: parameters with distinct
/// names get the same signature in whatever order they are listed.
pub proof fn lemma_signature_order_invariant(
    a: Seq<(Seq<char>, JsonModel)>,
    b: Seq<(Seq<char>, JsonModel)>,
    secret: Seq<char>,
)
    requires
        distinct_keys(a),
        a.to_multiset() == b.to_multiset(),
    ensures
        signing_text(a, secret) == signing_text(b, secret),
        signature(a, secret) == signature(b, secret),
{
    broadcast use vstd::multiset::group_multiset_axioms;

    lemma_keys_permuted(a, b);
    keys(a).lemma_multiset_has_no_duplicates();
    keys(b).lemma_multiset_has_no_duplicates_conv();
    lemma_str_order_total();
    let sa = keys(a).sort_by(str_order());
    let sb = keys(b).sort_by(str_order());
    keys(a).lemma_sort_by_ensures(str_order());
    keys(b).lemma_sort_by_ensures(str_order());
    lemma_sorted_unique(sa, sb, str_order());
    assert forall|i: int| 0 <= i < sa.len() implies keys(a).contains(#[trigger] sa[i]) by {
        assert(sa.contains(sa[i]));
    }
    lemma_joined_permuted(a, b, sa);
}

/// The value of the entry `sign` in what signing `params` under `secret` gives.
pub open spec fn sign_value(params: JsonModel, secret: Seq<char>) -> Option<JsonModel> {
    match signed(params, secret) {
        Ok(v) => v.get(sign_key()),
        Err(_) => None,
    }
}

/// What signing gives holds the signature under the key `sign`.
pub proof fn lemma_signed_carries_signature(params: JsonModel, secret: Seq<char>)
    requires
        is_flat_object(params),
    ensures
        sign_value(params, secret) == Some(
            JsonModel::String(signature(params->Object_0, secret)),
        ),
{
    let entries = params->Object_0;
    let value = JsonModel::String(signature(entries, secret));
    let p = position(entries, sign_key());
    lemma_position(entries, sign_key());
    lemma_position_is(with_entry(entries, sign_key(), value), sign_key(), p);
}

/// Entry lists with the same entries are flat together.
pub proof fn lemma_all_scalar_permuted(
    a: Seq<(Seq<char>, JsonModel)>,
    b: Seq<(Seq<char>, JsonModel)>,
)
    requires
        a.to_multiset() == b.to_multiset(),
        all_scalar(a),
    ensures
        all_scalar(b),
{
    broadcast use vstd::multiset::group_multiset_axioms;

    a.to_multiset_ensures();
    b.to_multiset_ensures();
    assert forall|i: int| 0 <= i < b.len() implies is_scalar(#[trigger] b[i].1) by {
        assert(b.contains(b[i]));
        assert(a.to_multiset().count(b[i]) > 0);
        assert(a.contains(b[i]));
        let j = choose|j: int| 0 <= j < a.len() && a[j] == b[i];
        assert(is_scalar(a[j].1));
    }
}

/// The order of the parameters does not change the `sign` entry: objects
/// with distinct keys and the same entries, in whatever order, are signed
/// with the same value, or are refused together.
pub proof fn lemma_sign_order_invariant(
    a: Seq<(Seq<char>, JsonModel)>,
    b: Seq<(Seq<char>, JsonModel)>,
    secret: Seq<char>,
)
    requires
        distinct_keys(a),
        a.to_multiset() == b.to_multiset(),
    ensures
        sign_value(JsonModel::Object(a), secret) == sign_value(JsonModel::Object(b), secret),
{
    if all_scalar(a) {
        lemma_all_scalar_permuted(a, b);
        lemma_signature_order_invariant(a, b, secret);
        lemma_signed_carries_signature(JsonModel::Object(a), secret);
        lemma_signed_carries_signature(JsonModel::Object(b), secret);
    } else if all_scalar(b) {
        lemma_all_scalar_permuted(b, a);
    }
}

} // verus!
