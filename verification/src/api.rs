//! The reply envelope `{code, message, data}` and the policy that turns a
//! reply into a payload or an error.

use crate::entities::Response;
use crate::json::{JsonModel, JsonValue};
use crate::parse::{from_str, parse_failure, parsed};
use vstd::prelude::*;
use vstd::string::*;

verus! {

/// Why a reply gave no payload.
#[derive(Debug, PartialEq, Eq)]
pub enum ApiError {
    /// The reply is not JSON text, or a part of it has the wrong type. `path`
    /// names the part (empty for the text as a whole), `detail` says what is
    /// wrong with it.
    Malformed { path: String, detail: String },
    /// The reply reports success and carries no data.
    EmptyPayload,
    /// The service reports a failure, with its code and message.
    Remote(i64, String),
}

/// The model of an `ApiError`.
pub enum ApiErrorModel {
    Malformed { path: Seq<char>, detail: Seq<char> },
    EmptyPayload,
    Remote(i64, Seq<char>),
}

impl View for ApiError {
    type V = ApiErrorModel;

    open spec fn view(&self) -> ApiErrorModel {
        match self {
            ApiError::Malformed { path, detail } => ApiErrorModel::Malformed {
                path: path@,
                detail: detail@,
            },
            ApiError::EmptyPayload => ApiErrorModel::EmptyPayload,
            ApiError::Remote(code, message) => ApiErrorModel::Remote(*code, message@),
        }
    }
}

/// The detail of a part that has the wrong type.
pub open spec fn wrong_type() -> Seq<char> {
    "unexpected type"@
}

/// The error for the part at `path` having the wrong type.
pub open spec fn misfit(path: Seq<char>) -> ApiErrorModel {
    ApiErrorModel::Malformed { path, detail: wrong_type() }
}

/// The integer field `key` of the object `obj`: zero if the field is absent,
/// `None` if it is there and is no integer that fits in 64 bits.
pub open spec fn int_field(obj: JsonModel, key: Seq<char>) -> Option<i64> {
    match obj.get(key) {
        None => Some(0i64),
        Some(v) => v.as_i64(),
    }
}

/// The text field `key` of the object `obj`: empty if the field is absent,
/// `None` if it is there and is no string.
pub open spec fn text_field(obj: JsonModel, key: Seq<char>) -> Option<Seq<char>> {
    match obj.get(key) {
        None => Some(Seq::<char>::empty()),
        Some(v) => v.as_str(),
    }
}

/// The optional field `key` of the object `obj`: absent and `null` both count
/// as no value.
pub open spec fn optional_field(obj: JsonModel, key: Seq<char>) -> Option<JsonModel> {
    match obj.get(key) {
        None => None,
        Some(JsonModel::Null) => None,
        Some(v) => Some(v),
    }
}

/// The model of an envelope: code, message, time to live, data.
pub struct EnvelopeModel {
    pub code: i64,
    pub message: Seq<char>,
    pub ttl: i64,
    pub data: Option<JsonModel>,
}

/// The envelope that the value `j` holds, or the path of the first part with
/// the wrong type.
pub open spec fn envelope(j: JsonModel) -> Result<EnvelopeModel, Seq<char>> {
    if !(j is Object) {
        Err(""@)
    } else if int_field(j, "code"@) is None {
        Err("code"@)
    } else if text_field(j, "message"@) is None {
        Err("message"@)
    } else if int_field(j, "ttl"@) is None {
        Err("ttl"@)
    } else {
        Ok(
            EnvelopeModel {
                code: int_field(j, "code"@).unwrap(),
                message: text_field(j, "message"@).unwrap(),
                ttl: int_field(j, "ttl"@).unwrap(),
                data: optional_field(j, "data"@),
            },
        )
    }
}

/// What an envelope gives: the data of a success, `EmptyPayload` for a
/// success without data, `Remote` with the code and message of a failure.
pub open spec fn outcome(e: EnvelopeModel) -> Result<JsonModel, ApiErrorModel> {
    if e.code == 0 {
        match e.data {
            Some(d) => Ok(d),
            None => Err(ApiErrorModel::EmptyPayload),
        }
    } else {
        Err(ApiErrorModel::Remote(e.code, e.message))
    }
}

/// What the reply value `j` gives.
pub open spec fn unwrapped(j: JsonModel) -> Result<JsonModel, ApiErrorModel> {
    match envelope(j) {
        Ok(e) => outcome(e),
        Err(path) => Err(misfit(path)),
    }
}

/// What the reply text `body` gives.
pub open spec fn unwrapped_text(body: Seq<char>) -> Result<JsonModel, ApiErrorModel> {
    match parsed(body) {
        Some(j) => unwrapped(j),
        None => Err(
            ApiErrorModel::Malformed { path: ""@, detail: parse_failure(body) },
        ),
    }
}

/// The error for the part at `path` having the wrong type.
pub fn misfit_at(path: &str) -> (e: ApiError)
    ensures
        e@ == misfit(path@),
{
    ApiError::Malformed { path: String::from_str(path), detail: String::from_str("unexpected type") }
}

/// The integer field `key` of `obj`: zero if the field is absent, `None` if
/// it is there and is no integer that fits in 64 bits.
pub fn read_int(obj: &JsonValue, key: &str) -> (r: Option<i64>)
    ensures
        r == int_field(obj@, key@),
{
    match obj.get(key) {
        None => Some(0),
        Some(v) => v.as_i64(),
    }
}

/// The text field `key` of `obj`: empty if the field is absent, `None` if it
/// is there and is no string.
pub fn read_text(obj: &JsonValue, key: &str) -> (r: Option<String>)
    ensures
        match r {
            Some(s) => text_field(obj@, key@) == Some(s@),
            None => text_field(obj@, key@) is None,
        },
{
    match obj.get(key) {
        None => Some(String::new()),
        Some(v) => match v.as_str() {
            Some(s) => Some(String::from_str(s)),
            None => None,
        },
    }
}

/// The optional field `key` of `obj`: absent and `null` both count as no value.
pub fn read_optional(obj: &JsonValue, key: &str) -> (r: Option<JsonValue>)
    ensures
        match r {
            Some(v) => optional_field(obj@, key@) == Some(v@),
            None => optional_field(obj@, key@) is None,
        },
{
    match obj.get(key) {
        None => None,
        Some(v) => {
            if v.is_null() {
                None
            } else {
                Some(v.clone())
            }
        },
    }
}

impl<T> Response<T> {
    /// The payload of a success, or the error that the envelope stands for:
    /// `EmptyPayload` for a success without data, `Remote` with the code and
    /// message of a failure.
    pub fn into_result(self) -> (r: Result<T, ApiError>)
        ensures
            self.code == 0 && self.data is Some ==> r == Ok::<T, ApiError>(self.data.unwrap()),
            self.code == 0 && self.data is None ==> r is Err && r->Err_0@
                == ApiErrorModel::EmptyPayload,
            self.code != 0 ==> r is Err && r->Err_0@ == ApiErrorModel::Remote(
                self.code,
                self.message@,
            ),
    {
        if self.code == 0 {
            match self.data {
                Some(t) => Ok(t),
                None => Err(ApiError::EmptyPayload),
            }
        } else {
            Err(ApiError::Remote(self.code, self.message))
        }
    }
}

/// Reads the envelope that the reply value `json` holds.
pub fn read_envelope(json: &JsonValue) -> (r: Result<Response<JsonValue>, ApiError>)
    ensures
        match r {
            Ok(e) => envelope(json@) == Ok::<EnvelopeModel, Seq<char>>(
                EnvelopeModel {
                    code: e.code,
                    message: e.message@,
                    ttl: e.ttl,
                    data: match e.data {
                        Some(d) => Some(d@),
                        None => None,
                    },
                },
            ),
            Err(e) => envelope(json@) is Err && e@ == misfit(envelope(json@)->Err_0),
        },
{
    if !json.is_object() {
        return Err(misfit_at(""));
    }
    let code: i64 = match read_int(json, "code") {
        Some(c) => c,
        None => {
            return Err(misfit_at("code"));
        },
    };
    let message: String = match read_text(json, "message") {
        Some(m) => m,
        None => {
            return Err(misfit_at("message"));
        },
    };
    let ttl: i64 = match read_int(json, "ttl") {
        Some(t) => t,
        None => {
            return Err(misfit_at("ttl"));
        },
    };
    let data: Option<JsonValue> = read_optional(json, "data");
    Ok(Response { code, message, ttl, data })
}

/// The payload of the reply value `json`, or the error that it stands for.
pub fn unwrap_value(json: &JsonValue) -> (r: Result<JsonValue, ApiError>)
    ensures
        match r {
            Ok(v) => unwrapped(json@) == Ok::<JsonModel, ApiErrorModel>(v@),
            Err(e) => unwrapped(json@) == Err::<JsonModel, ApiErrorModel>(e@),
        },
{
    match read_envelope(json) {
        Ok(e) => e.into_result(),
        Err(e) => Err(e),
    }
}

/// The payload of the reply text `body`, or the error that it stands for.
pub fn unwrap_response(body: &str) -> (r: Result<JsonValue, ApiError>)
    ensures
        match r {
            Ok(v) => unwrapped_text(body@) == Ok::<JsonModel, ApiErrorModel>(v@),
            Err(e) => unwrapped_text(body@) == Err::<JsonModel, ApiErrorModel>(e@),
        },
{
    match from_str(body) {
        Ok(json) => unwrap_value(&json),
        Err(detail) => Err(ApiError::Malformed { path: String::from_str(""), detail }),
    }
}

} // verus!
