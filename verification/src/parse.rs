//! Reading JSON text into `JsonValue`s. The parsing itself is `serde_json`'s.

use crate::json::{distinct_keys, keys, well_formed, JsonModel, JsonNumber, JsonValue, NumberModel};
use vstd::prelude::*;
use vstd::string::*;

verus! {

/// `serde_json::Value`, known to the verifier as an opaque type.
#[verifier::external_type_specification]
#[verifier::external_body]
pub struct ExValue(serde_json::Value);

/// The JSON value that a `serde_json::Value` holds.
pub uninterp spec fn value_model(v: serde_json::Value) -> JsonModel;

/// The JSON value that a text denotes, if it is JSON text.
pub uninterp spec fn parsed(text: Seq<char>) -> Option<JsonModel>;

/// What the parser says of a text that is not JSON text: the fault, and the
/// line and column at which it was met.
pub uninterp spec fn parse_failure(text: Seq<char>) -> Seq<char>;

/// One level of a `serde_json::Value`: its kind, and what it holds directly.
enum Opened<'a> {
    Null,
    Bool(bool),
    Number(Option<u64>, Option<i64>, String),
    String(&'a str),
    Array(&'a Vec<serde_json::Value>),
    Object(Vec<(&'a String, &'a serde_json::Value)>),
}

/// The number that the three readings of a `serde_json::Number` stand for.
spec fn number_model(u: Option<u64>, i: Option<i64>, text: Seq<char>) -> NumberModel {
    match (u, i) {
        (Some(u), _) => NumberModel::PosInt(u),
        (None, Some(i)) => NumberModel::NegInt(i),
        (None, None) => NumberModel::Float(text),
    }
}

/// The JSON value that an opened value stands for.
spec fn opened_model(o: Opened) -> JsonModel {
    match o {
        Opened::Null => JsonModel::Null,
        Opened::Bool(b) => JsonModel::Bool(b),
        Opened::Number(u, i, text) => JsonModel::Number(number_model(u, i, text@)),
        Opened::String(s) => JsonModel::String(s@),
        Opened::Array(items) => JsonModel::Array(
            Seq::new(items.len() as nat, |k: int| value_model(items[k])),
        ),
        Opened::Object(entries) => JsonModel::Object(
            Seq::new(entries.len() as nat, |k: int| (entries[k].0@, value_model(*entries[k].1))),
        ),
    }
}

/// Parses JSON text with `serde_json::from_str`. The call succeeds exactly on
/// the texts that denote a JSON value, and then gives that value; on any other
/// text it gives an error, which is handed on as the text that its `Display`
/// writes. Both depend on the text alone.
#[verifier::external_body]
fn parse_value(text: &str) -> (r: Result<serde_json::Value, String>)
    ensures
        r is Ok <==> parsed(text@) is Some,
        r matches Ok(v) ==> parsed(text@) == Some(value_model(v)),
        r matches Err(m) ==> m@ == parse_failure(text@),
{
    serde_json::from_str::<serde_json::Value>(text).map_err(|e| e.to_string())
}

/// Tells the variants of a `serde_json::Value` apart and hands out what the
/// value holds directly: for a number, what `Number::as_u64`, `Number::as_i64`
/// and its `Display` give; for an object, the entries that `Map::iter` walks,
/// of which no two have the same key.
#[verifier::external_body]
fn open<'a>(v: &'a serde_json::Value) -> (o: Opened<'a>)
    ensures
        opened_model(o) == value_model(*v),
        o matches Opened::Object(entries) ==> forall|i: int, j: int|
            0 <= i < j < entries.len() ==> entries[i].0@ != entries[j].0@,
{
    match v {
        serde_json::Value::Null => Opened::Null,
        serde_json::Value::Bool(b) => Opened::Bool(*b),
        serde_json::Value::Number(n) => Opened::Number(n.as_u64(), n.as_i64(), n.to_string()),
        serde_json::Value::String(s) => Opened::String(s.as_str()),
        serde_json::Value::Array(items) => Opened::Array(items),
        serde_json::Value::Object(map) => Opened::Object(map.iter().collect()),
    }
}

/// The `JsonValue` that holds what `v` holds.
fn lift(v: &serde_json::Value) -> (j: JsonValue)
    ensures
        j@ == value_model(*v),
        well_formed(j@),
    decreases value_model(*v),
{
    match open(v) {
        Opened::Null => JsonValue::Null,
        Opened::Bool(b) => JsonValue::Bool(b),
        Opened::Number(u, i, text) => {
            let n: JsonNumber = match (u, i) {
                (Some(u), _) => JsonNumber::PosInt(u),
                (None, Some(i)) => JsonNumber::NegInt(i),
                (None, None) => JsonNumber::Float(text),
            };
            JsonValue::Number(n)
        },
        Opened::String(s) => JsonValue::String(String::from_str(s)),
        Opened::Array(items) => {
            let ghost model = Seq::new(items.len() as nat, |k: int| value_model(items[k]));
            let mut out: Vec<JsonValue> = Vec::new();
            let mut k: usize = 0;
            while k < items.len()
                invariant
                    k <= items.len(),
                    out.len() == k,
                    value_model(*v) == JsonModel::Array(model),
                    model == Seq::new(items.len() as nat, |k: int| value_model(items[k])),
                    forall|m: int| 0 <= m < k ==> (#[trigger] out[m])@ == value_model(items[m]),
                    forall|m: int| 0 <= m < k ==> well_formed(#[trigger] model[m]),
                decreases items.len() - k,
            {
                assert(model[k as int] == value_model(items[k as int]));
                assert(decreases_to!(model => model[k as int]));
                assert(decreases_to!(value_model(*v) => value_model(*v)->Array_0));
                assert(decreases_to!(value_model(*v) => value_model(items[k as int])));
                let item: JsonValue = lift(&items[k]);
                out.push(item);
                k = k + 1;
            }
            let j = JsonValue::Array(out);
            assert(j@ =~= value_model(*v)) by {
                assert(j@->Array_0 =~= model);
            }
            assert(well_formed(JsonModel::Array(model)));
            j
        },
        Opened::Object(entries) => {
            let ghost model = Seq::new(
                entries.len() as nat,
                |k: int| (entries[k].0@, value_model(*entries[k].1)),
            );
            let mut out: Vec<(String, JsonValue)> = Vec::new();
            let mut k: usize = 0;
            while k < entries.len()
                invariant
                    k <= entries.len(),
                    out.len() == k,
                    value_model(*v) == JsonModel::Object(model),
                    model == Seq::new(
                        entries.len() as nat,
                        |k: int| (entries[k].0@, value_model(*entries[k].1)),
                    ),
                    forall|m: int|
                        0 <= m < k ==> (#[trigger] out[m]).0@ == entries[m].0@ && out[m].1@
                            == value_model(*entries[m].1),
                    forall|m: int| 0 <= m < k ==> well_formed((#[trigger] model[m]).1),
                decreases entries.len() - k,
            {
                assert(model[k as int].1 == value_model(*entries[k as int].1));
                assert(decreases_to!(model => model[k as int]));
                assert(decreases_to!(model[k as int] => model[k as int].1));
                assert(decreases_to!(value_model(*v) => value_model(*v)->Object_0));
                assert(decreases_to!(value_model(*v) => value_model(*entries[k as int].1)));
                let key: String = entries[k].0.clone();
                let item: JsonValue = lift(entries[k].1);
                out.push((key, item));
                k = k + 1;
            }
            let j = JsonValue::Object(out);
            assert(j@ =~= value_model(*v)) by {
                assert(j@->Object_0 =~= model);
            }
            assert(distinct_keys(model)) by {
                assert forall|a: int, b: int|
                    0 <= a < keys(model).len() && 0 <= b < keys(model).len() && a
                        != b implies keys(model)[a] != keys(model)[b] by {
                    if a < b {
                        assert(entries[a].0@ != entries[b].0@);
                    } else {
                        assert(entries[b].0@ != entries[a].0@);
                    }
                }
            }
            assert(well_formed(JsonModel::Object(model)));
            j
        },
    }
}

/// Reads JSON text.
///
/// A text that denotes a JSON value gives that value, in which no object has
/// two entries with the same key; any other text gives what the parser says
/// of it.
pub fn from_str(json: &str) -> (r: Result<JsonValue, String>)
    ensures
        r is Ok <==> parsed(json@) is Some,
        r matches Ok(v) ==> parsed(json@) == Some(v@) && well_formed(v@),
        r matches Err(m) ==> m@ == parse_failure(json@),
{
    match parse_value(json) {
        Ok(v) => Ok(lift(&v)),
        Err(m) => Err(m),
    }
}

/// Whether `text` is JSON text.
pub fn is_json(text: &str) -> (r: bool)
    ensures
        r == parsed(text@) is Some,
{
    parse_value(text).is_ok()
}

} // verus!
