//! The replies of the login service. They do not follow the common envelope:
//! `data` is a number where a login has not succeeded and an object where it
//! has, so each reply is read by the shape that it has.

use crate::api::{int_field, misfit, misfit_at, read_int, read_text, text_field, ApiError, ApiErrorModel};
use crate::entities::{LoginQrData, LoginQrInfo, LoginTvQrInfo, TvLoginQrData};
use crate::json::{JsonModel, JsonValue};
use vstd::prelude::*;
use vstd::string::*;

verus! {

/// The value of the key `key` in `j`, or `null` where `j` has no such entry.
pub open spec fn index(j: JsonModel, key: Seq<char>) -> JsonModel {
    match j.get(key) {
        Some(v) => v,
        None => JsonModel::Null,
    }
}

/// The message of the reply `j`: its `message` where that is a string, else
/// the empty text.
pub open spec fn message_of(j: JsonModel) -> Seq<char> {
    match index(j, "message"@).as_str() {
        Some(s) => s,
        None => Seq::<char>::empty(),
    }
}

/// Whether the reply `j` reports success: its `code` must be an integer, and
/// any code but zero is a failure of the service.
pub open spec fn status(j: JsonModel) -> Result<(), ApiErrorModel> {
    match index(j, "code"@).as_i64() {
        None => Err(misfit("code"@)),
        Some(c) => if c == 0 {
            Ok(())
        } else {
            Err(ApiErrorModel::Remote(c, message_of(j)))
        },
    }
}

/// The two text fields `first` and `second` of the `data` object of a reply
/// that reports success. `first_path` and `second_path` name the fields in errors.
pub open spec fn text_pair(
    j: JsonModel,
    first: Seq<char>,
    first_path: Seq<char>,
    second: Seq<char>,
    second_path: Seq<char>,
) -> Result<(Seq<char>, Seq<char>), ApiErrorModel> {
    let data = index(j, "data"@);
    if status(j) is Err {
        Err(status(j)->Err_0)
    } else if !(data is Object) {
        Err(misfit("data"@))
    } else if text_field(data, first) is None {
        Err(misfit(first_path))
    } else if text_field(data, second) is None {
        Err(misfit(second_path))
    } else {
        Ok((text_field(data, first).unwrap(), text_field(data, second).unwrap()))
    }
}

/// What the reply to a request for a login code gives: its address and key.
pub open spec fn qr_data(j: JsonModel) -> Result<(Seq<char>, Seq<char>), ApiErrorModel> {
    text_pair(j, "url"@, "data.url"@, "oauthKey"@, "data.oauthKey"@)
}

/// What the reply to a request for a login code for a television gives: its
/// address and code.
pub open spec fn tv_qr_data(j: JsonModel) -> Result<(Seq<char>, Seq<char>), ApiErrorModel> {
    text_pair(j, "url"@, "data.url"@, "auth_code"@, "data.auth_code"@)
}

/// What the reply to a poll of a login code gives: an integer `data` is the
/// state of a login that has not succeeded; any other `data` must be an object
/// whose `url` is a string, the address of a login that has.
pub open spec fn qr_info(j: JsonModel) -> Result<(i64, Seq<char>), ApiErrorModel> {
    let data = index(j, "data"@);
    match data.as_i64() {
        Some(n) => Ok((n, Seq::<char>::empty())),
        None => match index(data, "url"@).as_str() {
            Some(s) => Ok((0i64, s)),
            None => Err(misfit("data.url"@)),
        },
    }
}

/// The model of the state of a login on a television.
pub struct TvInfoModel {
    pub error_data: i64,
    pub mid: i64,
    pub access_token: Seq<char>,
    pub refresh_token: Seq<char>,
    pub expires_in: i64,
}

/// What the reply to a poll of a login code for a television gives: without
/// `data`, the `code` of the reply is the state of a login that has not
/// succeeded; with it, `data` must be an object that holds the login.
pub open spec fn tv_qr_info(j: JsonModel) -> Result<TvInfoModel, ApiErrorModel> {
    let data = index(j, "data"@);
    if data is Null {
        match index(j, "code"@).as_i64() {
            Some(c) => Ok(
                TvInfoModel {
                    error_data: c,
                    mid: 0,
                    access_token: Seq::<char>::empty(),
                    refresh_token: Seq::<char>::empty(),
                    expires_in: 0,
                },
            ),
            None => Err(misfit("code"@)),
        }
    } else if !(data is Object) {
        Err(misfit("data"@))
    } else if int_field(data, "error_data"@) is None {
        Err(misfit("data.error_data"@))
    } else if int_field(data, "mid"@) is None {
        Err(misfit("data.mid"@))
    } else if text_field(data, "access_token"@) is None {
        Err(misfit("data.access_token"@))
    } else if text_field(data, "refresh_token"@) is None {
        Err(misfit("data.refresh_token"@))
    } else if int_field(data, "expires_in"@) is None {
        Err(misfit("data.expires_in"@))
    } else {
        Ok(
            TvInfoModel {
                error_data: int_field(data, "error_data"@).unwrap(),
                mid: int_field(data, "mid"@).unwrap(),
                access_token: text_field(data, "access_token"@).unwrap(),
                refresh_token: text_field(data, "refresh_token"@).unwrap(),
                expires_in: int_field(data, "expires_in"@).unwrap(),
            },
        )
    }
}

/// The `null` value.
fn null() -> (v: JsonValue)
    ensures
        v@ == JsonModel::Null,
{
    JsonValue::Null
}

/// The integer at the key `key` of `j`, if there is one.
fn code_at(j: &JsonValue, key: &str) -> (r: Option<i64>)
    ensures
        r == index(j@, key@).as_i64(),
{
    match j.get(key) {
        Some(v) => v.as_i64(),
        None => None,
    }
}

/// The string at the key `key` of `j`, if there is one.
fn text_at(j: &JsonValue, key: &str) -> (r: Option<String>)
    ensures
        match r {
            Some(s) => index(j@, key@).as_str() == Some(s@),
            None => index(j@, key@).as_str() is None,
        },
{
    match j.get(key) {
        Some(v) => match v.as_str() {
            Some(s) => Some(String::from_str(s)),
            None => None,
        },
        None => None,
    }
}

/// Whether the reply `json` reports success.
pub fn check_status(json: &JsonValue) -> (r: Result<(), ApiError>)
    ensures
        match r {
            Ok(_) => status(json@) is Ok,
            Err(e) => status(json@) == Err::<(), ApiErrorModel>(e@),
        },
{
    match code_at(json, "code") {
        None => Err(misfit_at("code")),
        Some(c) => {
            if c == 0 {
                Ok(())
            } else {
                let message: String = match text_at(json, "message") {
                    Some(m) => m,
                    None => String::new(),
                };
                Err(ApiError::Remote(c, message))
            }
        },
    }
}

/// Reads the two text fields `first` and `second` of the `data` object of a
/// reply that reports success.
fn read_text_pair(
    json: &JsonValue,
    first: &str,
    first_path: &str,
    second: &str,
    second_path: &str,
) -> (r: Result<(String, String), ApiError>)
    ensures
        match r {
            Ok(p) => text_pair(json@, first@, first_path@, second@, second_path@) == Ok::<
                (Seq<char>, Seq<char>),
                ApiErrorModel,
            >((p.0@, p.1@)),
            Err(e) => text_pair(json@, first@, first_path@, second@, second_path@) == Err::<
                (Seq<char>, Seq<char>),
                ApiErrorModel,
            >(e@),
        },
{
    match check_status(json) {
        Err(e) => {
            return Err(e);
        },
        Ok(_) => {},
    }
    let data: &JsonValue = match json.get("data") {
        Some(v) => v,
        None => {
            return Err(misfit_at("data"));
        },
    };
    if !data.is_object() {
        return Err(misfit_at("data"));
    }
    let a: String = match read_text(data, first) {
        Some(s) => s,
        None => {
            return Err(misfit_at(first_path));
        },
    };
    let b: String = match read_text(data, second) {
        Some(s) => s,
        None => {
            return Err(misfit_at(second_path));
        },
    };
    Ok((a, b))
}

/// Reads the reply to a request for a login code.
pub fn login_qr(json: &JsonValue) -> (r: Result<LoginQrData, ApiError>)
    ensures
        match r {
            Ok(d) => qr_data(json@) == Ok::<(Seq<char>, Seq<char>), ApiErrorModel>(
                (d.url@, d.oauth_key@),
            ),
            Err(e) => qr_data(json@) == Err::<(Seq<char>, Seq<char>), ApiErrorModel>(e@),
        },
{
    match read_text_pair(json, "url", "data.url", "oauthKey", "data.oauthKey") {
        Ok(p) => Ok(LoginQrData { url: p.0, oauth_key: p.1 }),
        Err(e) => Err(e),
    }
}

/// Reads the reply to a request for a login code for a television.
pub fn tv_login_qr(json: &JsonValue) -> (r: Result<TvLoginQrData, ApiError>)
    ensures
        match r {
            Ok(d) => tv_qr_data(json@) == Ok::<(Seq<char>, Seq<char>), ApiErrorModel>(
                (d.url@, d.auth_code@),
            ),
            Err(e) => tv_qr_data(json@) == Err::<(Seq<char>, Seq<char>), ApiErrorModel>(e@),
        },
{
    match read_text_pair(json, "url", "data.url", "auth_code", "data.auth_code") {
        Ok(p) => Ok(TvLoginQrData { url: p.0, auth_code: p.1 }),
        Err(e) => Err(e),
    }
}

/// Reads the reply to a poll of a login code.
pub fn login_qr_info(json: &JsonValue) -> (r: Result<LoginQrInfo, ApiError>)
    ensures
        match r {
            Ok(i) => qr_info(json@) == Ok::<(i64, Seq<char>), ApiErrorModel>(
                (i.error_data, i.url@),
            ),
            Err(e) => qr_info(json@) == Err::<(i64, Seq<char>), ApiErrorModel>(e@),
        },
{
    let absent: JsonValue = null();
    let data: &JsonValue = match json.get("data") {
        Some(v) => v,
        None => &absent,
    };
    match data.as_i64() {
        Some(n) => Ok(LoginQrInfo { error_data: n, url: String::new() }),
        None => match text_at(data, "url") {
            Some(url) => Ok(LoginQrInfo { error_data: 0, url }),
            None => Err(misfit_at("data.url")),
        },
    }
}

/// The state of a login on a television that has not succeeded: the `code`
/// of the reply, which must be an integer.
fn pending(json: &JsonValue) -> (r: Result<LoginTvQrInfo, ApiError>)
    ensures
        match r {
            Ok(i) => index(json@, "code"@).as_i64() == Some(i.error_data) && i.mid == 0
                && i.access_token@ == Seq::<char>::empty() && i.refresh_token@ == Seq::<
                char,
            >::empty() && i.expires_in == 0,
            Err(e) => index(json@, "code"@).as_i64() is None && e@ == misfit("code"@),
        },
{
    match code_at(json, "code") {
        Some(c) => Ok(
            LoginTvQrInfo {
                error_data: c,
                mid: 0,
                access_token: String::new(),
                refresh_token: String::new(),
                expires_in: 0,
            },
        ),
        None => Err(misfit_at("code")),
    }
}

/// Reads the reply to a poll of a login code for a television.
pub fn tv_login_qr_info(json: &JsonValue) -> (r: Result<LoginTvQrInfo, ApiError>)
    ensures
        match r {
            Ok(i) => tv_qr_info(json@) == Ok::<TvInfoModel, ApiErrorModel>(
                TvInfoModel {
                    error_data: i.error_data,
                    mid: i.mid,
                    access_token: i.access_token@,
                    refresh_token: i.refresh_token@,
                    expires_in: i.expires_in,
                },
            ),
            Err(e) => tv_qr_info(json@) == Err::<TvInfoModel, ApiErrorModel>(e@),
        },
{
    let data: &JsonValue = match json.get("data") {
        Some(v) => v,
        None => {
            return pending(json);
        },
    };
    if data.is_null() {
        return pending(json);
    }
    if !data.is_object() {
        return Err(misfit_at("data"));
    }
    let error_data: i64 = match read_int(data, "error_data") {
        Some(n) => n,
        None => {
            return Err(misfit_at("data.error_data"));
        },
    };
    let mid: i64 = match read_int(data, "mid") {
        Some(n) => n,
        None => {
            return Err(misfit_at("data.mid"));
        },
    };
    let access_token: String = match read_text(data, "access_token") {
        Some(s) => s,
        None => {
            return Err(misfit_at("data.access_token"));
        },
    };
    let refresh_token: String = match read_text(data, "refresh_token") {
        Some(s) => s,
        None => {
            return Err(misfit_at("data.refresh_token"));
        },
    };
    let expires_in: i64 = match read_int(data, "expires_in") {
        Some(n) => n,
        None => {
            return Err(misfit_at("data.expires_in"));
        },
    };
    Ok(LoginTvQrInfo { error_data, mid, access_token, refresh_token, expires_in })
}

} // verus!
