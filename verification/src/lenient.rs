//! Readings that accept more than one shape of a value, as the service sends
//! some values in more than one shape.

use crate::json::{items_model, JsonModel, JsonValue};
use vstd::prelude::*;

verus! {

/// A value has none of the shapes that a reading accepts.
#[derive(Debug, Clone, Copy, PartialEq, Eq, Structural)]
pub enum ShapeError {
    TypeError,
}

/// The truth value that `j` stands for: a boolean stands for itself, an
/// integer that fits in 64 bits for whether it is above zero.
pub open spec fn fuzzy(j: JsonModel) -> Result<bool, ShapeError> {
    match j.as_i64() {
        Some(n) => Ok(n > 0),
        None => match j.as_bool() {
            Some(b) => Ok(b),
            None => Err(ShapeError::TypeError),
        },
    }
}

/// The list that `j` stands for: `null` stands for the empty list, an array
/// for its items.
pub open spec fn listed(j: JsonModel) -> Result<Seq<JsonModel>, ShapeError> {
    match j {
        JsonModel::Null => Ok(Seq::<JsonModel>::empty()),
        JsonModel::Array(items) => Ok(items),
        _ => Err(ShapeError::TypeError),
    }
}

/// Reads a truth value that may be written as a boolean or as an integer.
pub fn fuzzy_bool(value: &JsonValue) -> (r: Result<bool, ShapeError>)
    ensures
        r == fuzzy(value@),
{
    match value.as_i64() {
        Some(n) => Ok(n > 0),
        None => match value.as_bool() {
            Some(b) => Ok(b),
            None => Err(ShapeError::TypeError),
        },
    }
}

/// Reads a list that may be written as `null` where it is empty.
pub fn null_vec(value: &JsonValue) -> (r: Result<Vec<JsonValue>, ShapeError>)
    ensures
        match r {
            Ok(items) => listed(value@) == Ok::<Seq<JsonModel>, ShapeError>(items_model(items@)),
            Err(e) => listed(value@) == Err::<Seq<JsonModel>, ShapeError>(e),
        },
{
    match value {
        JsonValue::Null => {
            let items: Vec<JsonValue> = Vec::new();
            assert(items_model(items@) =~= Seq::<JsonModel>::empty());
            Ok(items)
        },
        JsonValue::Array(items) => {
            proof {
                crate::json::lemma_array_view(*items);
            }
            let mut out: Vec<JsonValue> = Vec::new();
            let mut i: usize = 0;
            while i < items.len()
                invariant
                    i <= items.len(),
                    out.len() == i,
                    forall|k: int| 0 <= k < i ==> (#[trigger] out[k])@ == items[k]@,
                decreases items.len() - i,
            {
                out.push(items[i].clone());
                i = i + 1;
            }
            assert(items_model(out@) =~= items_model(items@));
            Ok(out)
        },
        _ => Err(ShapeError::TypeError),
    }
}

} // verus!
