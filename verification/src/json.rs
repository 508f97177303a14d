//! JSON values as plain data, with the mathematical model that contracts speak of.

use crate::text::str_eq;
use vstd::prelude::*;

verus! {

/// A JSON number.
///
/// An integer is held as an integer: `PosInt` for one that is not negative,
/// `NegInt` for a negative one. Any other number is held as its JSON text.
#[derive(Debug, PartialEq, Eq)]
pub enum JsonNumber {
    PosInt(u64),
    NegInt(i64),
    Float(String),
}

/// A JSON value. An object is the list of its entries, each a key and a value.
#[derive(Debug, PartialEq, Eq)]
pub enum JsonValue {
    Null,
    Bool(bool),
    Number(JsonNumber),
    String(String),
    Array(Vec<JsonValue>),
    Object(Vec<(String, JsonValue)>),
}

/// The model of a JSON number.
pub enum NumberModel {
    PosInt(u64),
    NegInt(i64),
    Float(Seq<char>),
}

/// The model of a JSON value.
pub enum JsonModel {
    Null,
    Bool(bool),
    Number(NumberModel),
    String(Seq<char>),
    Array(Seq<JsonModel>),
    Object(Seq<(Seq<char>, JsonModel)>),
}

impl View for JsonNumber {
    type V = NumberModel;

    open spec fn view(&self) -> NumberModel {
        match self {
            JsonNumber::PosInt(u) => NumberModel::PosInt(*u),
            JsonNumber::NegInt(i) => NumberModel::NegInt(*i),
            JsonNumber::Float(t) => NumberModel::Float(t@),
        }
    }
}

/// The model of `v`.
pub open spec fn model_of(v: JsonValue) -> JsonModel
    decreases v,
{
    match v {
        JsonValue::Null => JsonModel::Null,
        JsonValue::Bool(b) => JsonModel::Bool(b),
        JsonValue::Number(n) => JsonModel::Number(n@),
        JsonValue::String(s) => JsonModel::String(s@),
        JsonValue::Array(items) => JsonModel::Array(
            Seq::new(
                items@.len(),
                |i: int|
                    if 0 <= i < items@.len() {
                        model_of(items[i])
                    } else {
                        JsonModel::Null
                    },
            ),
        ),
        JsonValue::Object(entries) => JsonModel::Object(
            Seq::new(
                entries@.len(),
                |i: int|
                    if 0 <= i < entries@.len() {
                        (entries[i].0@, model_of(entries[i].1))
                    } else {
                        (Seq::empty(), JsonModel::Null)
                    },
            ),
        ),
    }
}

impl View for JsonValue {
    type V = JsonModel;

    open spec fn view(&self) -> JsonModel {
        model_of(*self)
    }
}

/// The models of the values in `items`, in order.
pub open spec fn items_model(items: Seq<JsonValue>) -> Seq<JsonModel> {
    Seq::new(items.len(), |i: int| items[i]@)
}

/// The models of the entries in `entries`, in order.
pub open spec fn entries_model(entries: Seq<(String, JsonValue)>) -> Seq<(Seq<char>, JsonModel)> {
    Seq::new(entries.len(), |i: int| (entries[i].0@, entries[i].1@))
}

/// The model of an array is the array of the models of its items.
pub proof fn lemma_array_view(items: Vec<JsonValue>)
    ensures
        JsonValue::Array(items)@ == JsonModel::Array(items_model(items@)),
{
    assert(JsonValue::Array(items)@->Array_0 =~= items_model(items@));
}

/// The model of an object is the list of the models of its entries.
pub proof fn lemma_object_view(entries: Vec<(String, JsonValue)>)
    ensures
        JsonValue::Object(entries)@ == JsonModel::Object(entries_model(entries@)),
{
    assert(JsonValue::Object(entries)@->Object_0 =~= entries_model(entries@));
}

/// The keys of `entries`, in the order of the entries.
pub open spec fn keys(entries: Seq<(Seq<char>, JsonModel)>) -> Seq<Seq<char>> {
    Seq::new(entries.len(), |i: int| entries[i].0)
}

/// Whether no two entries of `entries` have the same key.
pub open spec fn distinct_keys(entries: Seq<(Seq<char>, JsonModel)>) -> bool {
    keys(entries).no_duplicates()
}

/// Whether no object in `j`, at any depth, has two entries with the same key.
pub open spec fn well_formed(j: JsonModel) -> bool
    decreases j,
{
    match j {
        JsonModel::Array(items) => forall|i: int|
            0 <= i < items.len() ==> well_formed(#[trigger] items[i]),
        JsonModel::Object(entries) => distinct_keys(entries) && forall|i: int|
            0 <= i < entries.len() ==> well_formed((#[trigger] entries[i]).1),
        _ => true,
    }
}

/// The index of the first entry with the key `key`, or the number of entries
/// if there is none.
pub open spec fn position(entries: Seq<(Seq<char>, JsonModel)>, key: Seq<char>) -> int
    decreases entries.len(),
{
    if entries.len() == 0 {
        0
    } else if entries[0].0 == key {
        0
    } else {
        1 + position(entries.drop_first(), key)
    }
}

/// The value of the first entry with the key `key`.
pub open spec fn lookup(entries: Seq<(Seq<char>, JsonModel)>, key: Seq<char>) -> Option<
    JsonModel,
> {
    let p = position(entries, key);
    if p < entries.len() {
        Some(entries[p].1)
    } else {
        None
    }
}

/// `entries` with `key` set to `value`: the first entry with that key gets the
/// value; if there is none, a new entry is added at the end.
pub open spec fn with_entry(
    entries: Seq<(Seq<char>, JsonModel)>,
    key: Seq<char>,
    value: JsonModel,
) -> Seq<(Seq<char>, JsonModel)> {
    let p = position(entries, key);
    if p < entries.len() {
        entries.update(p, (key, value))
    } else {
        entries.push((key, value))
    }
}

/// `position` is the first index with the key: no entry before it has the key,
/// and the entry at it, if there is one, has it.
pub proof fn lemma_position(entries: Seq<(Seq<char>, JsonModel)>, key: Seq<char>)
    ensures
        0 <= position(entries, key) <= entries.len(),
        forall|k: int| 0 <= k < position(entries, key) ==> (#[trigger] entries[k]).0 != key,
        position(entries, key) < entries.len() ==> entries[position(entries, key)].0 == key,
    decreases entries.len(),
{
    if entries.len() > 0 && entries[0].0 != key {
        let rest = entries.drop_first();
        lemma_position(rest, key);
        assert forall|k: int| 0 <= k < position(entries, key) implies (#[trigger] entries[k]).0
            != key by {
            if k > 0 {
                assert(entries[k] == rest[k - 1]);
            }
        }
    }
}

/// An index is `position` if no entry before it has the key and the entry at
/// it, if there is one, has it.
pub proof fn lemma_position_is(entries: Seq<(Seq<char>, JsonModel)>, key: Seq<char>, p: int)
    requires
        0 <= p <= entries.len(),
        forall|k: int| 0 <= k < p ==> (#[trigger] entries[k]).0 != key,
        p < entries.len() ==> entries[p].0 == key,
    ensures
        position(entries, key) == p,
{
    lemma_position(entries, key);
    let q = position(entries, key);
    if q < p {
        assert(entries[q].0 != key);
    }
    if p < q {
        assert(entries[p].0 != key);
    }
}

/// The index of the first entry with the key `key`, or the number of entries
/// if there is none.
pub fn find_entry(entries: &Vec<(String, JsonValue)>, key: &str) -> (p: usize)
    ensures
        p == position(entries_model(entries@), key@),
        p <= entries.len(),
{
    let mut p: usize = 0;
    while p < entries.len()
        invariant
            p <= entries.len(),
            forall|k: int| 0 <= k < p ==> (#[trigger] entries_model(entries@)[k]).0 != key@,
        decreases entries.len() - p,
    {
        if str_eq(entries[p].0.as_str(), key) {
            proof {
                lemma_position_is(entries_model(entries@), key@, p as int);
            }
            return p;
        }
        p = p + 1;
    }
    proof {
        lemma_position_is(entries_model(entries@), key@, p as int);
    }
    p
}

impl JsonModel {
    /// The value of the first entry with the key `key`, if this is an object
    /// that has one.
    pub open spec fn get(self, key: Seq<char>) -> Option<JsonModel> {
        match self {
            JsonModel::Object(entries) => lookup(entries, key),
            _ => None,
        }
    }

    /// The number as a signed 64-bit integer, if this is an integer that fits.
    pub open spec fn as_i64(self) -> Option<i64> {
        match self {
            JsonModel::Number(NumberModel::PosInt(u)) => if u <= i64::MAX {
                Some(u as i64)
            } else {
                None
            },
            JsonModel::Number(NumberModel::NegInt(i)) => Some(i),
            _ => None,
        }
    }

    /// The text, if this is a string.
    pub open spec fn as_str(self) -> Option<Seq<char>> {
        match self {
            JsonModel::String(s) => Some(s),
            _ => None,
        }
    }

    /// The truth value, if this is a boolean.
    pub open spec fn as_bool(self) -> Option<bool> {
        match self {
            JsonModel::Bool(b) => Some(b),
            _ => None,
        }
    }

    /// The items, if this is an array.
    pub open spec fn as_array(self) -> Option<Seq<JsonModel>> {
        match self {
            JsonModel::Array(items) => Some(items),
            _ => None,
        }
    }
}

impl Clone for JsonNumber {
    /// A copy of the number.
    fn clone(&self) -> (r: Self)
        ensures
            r@ == self@,
    {
        match self {
            JsonNumber::PosInt(u) => JsonNumber::PosInt(*u),
            JsonNumber::NegInt(i) => JsonNumber::NegInt(*i),
            JsonNumber::Float(t) => JsonNumber::Float(t.clone()),
        }
    }
}

impl Clone for JsonValue {
    /// A copy of the whole value.
    fn clone(&self) -> (r: Self)
        ensures
            r@ == self@,
        decreases self,
    {
        match self {
            JsonValue::Null => JsonValue::Null,
            JsonValue::Bool(b) => JsonValue::Bool(*b),
            JsonValue::Number(n) => JsonValue::Number(n.clone()),
            JsonValue::String(s) => JsonValue::String(s.clone()),
            JsonValue::Array(items) => {
                let mut out: Vec<JsonValue> = Vec::new();
                let mut i: usize = 0;
                while i < items.len()
                    invariant
                        i <= items.len(),
                        out.len() == i,
                        *self == JsonValue::Array(*items),
                        forall|k: int| 0 <= k < i ==> (#[trigger] out[k])@ == items[k]@,
                    decreases items.len() - i,
                {
                    assert(decreases_to!(self => items[i as int])) by {
                        assert(decreases_to!(*items => items[i as int]));
                        assert(decreases_to!(*self => self->Array_0));
                    }
                    let item: JsonValue = items[i].clone();
                    out.push(item);
                    i = i + 1;
                }
                proof {
                    lemma_array_view(out);
                    lemma_array_view(*items);
                    assert(items_model(out@) =~= items_model(items@));
                }
                JsonValue::Array(out)
            },
            JsonValue::Object(entries) => {
                let mut out: Vec<(String, JsonValue)> = Vec::new();
                let mut i: usize = 0;
                while i < entries.len()
                    invariant
                        i <= entries.len(),
                        out.len() == i,
                        *self == JsonValue::Object(*entries),
                        forall|k: int|
                            0 <= k < i ==> (#[trigger] out[k]).0@ == entries[k].0@ && out[k].1@
                                == entries[k].1@,
                    decreases entries.len() - i,
                {
                    let key: String = entries[i].0.clone();
                    assert(decreases_to!(self => entries[i as int].1)) by {
                        assert(decreases_to!(*entries => entries[i as int]));
                        assert(decreases_to!(entries[i as int] => entries[i as int].1));
                        assert(decreases_to!(*self => self->Object_0));
                    }
                    let item: JsonValue = entries[i].1.clone();
                    out.push((key, item));
                    i = i + 1;
                }
                proof {
                    lemma_object_view(out);
                    lemma_object_view(*entries);
                    assert(entries_model(out@) =~= entries_model(entries@));
                }
                JsonValue::Object(out)
            },
        }
    }
}

impl JsonValue {
    /// The value of the first entry with the key `key`, if this is an object
    /// that has one.
    pub fn get(&self, key: &str) -> (r: Option<&JsonValue>)
        ensures
            match r {
                Some(v) => self@.get(key@) == Some(v@),
                None => self@.get(key@) is None,
            },
    {
        match self {
            JsonValue::Object(entries) => {
                proof {
                    lemma_object_view(*entries);
                }
                let p: usize = find_entry(entries, key);
                if p < entries.len() {
                    Some(&entries[p].1)
                } else {
                    None
                }
            },
            _ => None,
        }
    }

    /// The number as a signed 64-bit integer, if this is an integer that fits.
    pub fn as_i64(&self) -> (r: Option<i64>)
        ensures
            r == self@.as_i64(),
    {
        match self {
            JsonValue::Number(JsonNumber::PosInt(u)) => {
                if *u <= 0x7fff_ffff_ffff_ffff {
                    Some(*u as i64)
                } else {
                    None
                }
            },
            JsonValue::Number(JsonNumber::NegInt(i)) => Some(*i),
            _ => None,
        }
    }

    /// The text, if this is a string.
    pub fn as_str(&self) -> (r: Option<&str>)
        ensures
            match r {
                Some(s) => self@.as_str() == Some(s@),
                None => self@.as_str() is None,
            },
    {
        match self {
            JsonValue::String(s) => Some(s.as_str()),
            _ => None,
        }
    }

    /// The truth value, if this is a boolean.
    pub fn as_bool(&self) -> (r: Option<bool>)
        ensures
            r == self@.as_bool(),
    {
        match self {
            JsonValue::Bool(b) => Some(*b),
            _ => None,
        }
    }

    /// The items, if this is an array.
    pub fn as_array(&self) -> (r: Option<&Vec<JsonValue>>)
        ensures
            match r {
                Some(items) => self@.as_array() == Some(items_model(items@)),
                None => self@.as_array() is None,
            },
    {
        match self {
            JsonValue::Array(items) => {
                proof {
                    lemma_array_view(*items);
                }
                Some(items)
            },
            _ => None,
        }
    }

    /// Whether this is an object.
    pub fn is_object(&self) -> (r: bool)
        ensures
            r == (self@ is Object),
    {
        match self {
            JsonValue::Object(_) => true,
            _ => false,
        }
    }

    /// Whether this is `null`.
    pub fn is_null(&self) -> (r: bool)
        ensures
            r == (self@ is Null),
    {
        match self {
            JsonValue::Null => true,
            _ => false,
        }
    }
}

} // verus!
