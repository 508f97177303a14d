use bilirust::api::{read_envelope, unwrap_response, unwrap_value, ApiError};
use bilirust::entities::Response;
use bilirust::json::{JsonNumber, JsonValue};

fn text(s: &str) -> JsonValue {
    JsonValue::String(s.to_string())
}

fn uint(n: u64) -> JsonValue {
    JsonValue::Number(JsonNumber::PosInt(n))
}

fn object(entries: Vec<(&str, JsonValue)>) -> JsonValue {
    JsonValue::Object(entries.into_iter().map(|(k, v)| (k.to_string(), v)).collect())
}

fn misfit(path: &str) -> ApiError {
    ApiError::Malformed { path: path.to_string(), detail: "unexpected type".to_string() }
}

#[test]
fn envelope_success_gives_the_payload() {
    let r = unwrap_response("{\"code\":0,\"message\":\"\",\"data\":{\"x\":1}}");
    assert_eq!(r, Ok(object(vec![("x", uint(1))])));
}

#[test]
fn envelope_success_without_data_is_empty_payload() {
    assert_eq!(unwrap_response("{\"code\":0,\"data\":null}"), Err(ApiError::EmptyPayload));
    assert_eq!(unwrap_response("{\"code\":0}"), Err(ApiError::EmptyPayload));
    assert_eq!(unwrap_response("{}"), Err(ApiError::EmptyPayload));
}

#[test]
fn envelope_failure_is_remote() {
    assert_eq!(
        unwrap_response("{\"code\":-400,\"message\":\"boom\"}"),
        Err(ApiError::Remote(-400, "boom".to_string()))
    );
}

#[test]
fn envelope_failure_ignores_data() {
    assert_eq!(
        unwrap_response("{\"code\":86038,\"message\":\"late\",\"data\":{\"x\":1}}"),
        Err(ApiError::Remote(86038, "late".to_string()))
    );
}

#[test]
fn envelope_failure_without_message() {
    assert_eq!(unwrap_response("{\"code\":7}"), Err(ApiError::Remote(7, String::new())));
}

#[test]
fn envelope_text_that_is_no_json() {
    match unwrap_response("{\"code\":") {
        Err(ApiError::Malformed { path, detail }) => {
            assert_eq!(path, "");
            assert_eq!(detail, "EOF while parsing a value at line 1 column 8");
        }
        other => panic!("unexpected: {:?}", other),
    }
}

#[test]
fn envelope_that_is_no_object() {
    assert_eq!(unwrap_response("[0]"), Err(misfit("")));
    assert_eq!(unwrap_response("0"), Err(misfit("")));
    assert_eq!(unwrap_value(&JsonValue::Null), Err(misfit("")));
}

#[test]
fn envelope_parts_of_the_wrong_type() {
    assert_eq!(unwrap_response("{\"code\":\"0\"}"), Err(misfit("code")));
    assert_eq!(unwrap_response("{\"code\":1.5}"), Err(misfit("code")));
    assert_eq!(unwrap_response("{\"code\":null}"), Err(misfit("code")));
    assert_eq!(unwrap_response("{\"code\":18446744073709551615}"), Err(misfit("code")));
    assert_eq!(unwrap_response("{\"code\":0,\"message\":5}"), Err(misfit("message")));
    assert_eq!(unwrap_response("{\"code\":0,\"ttl\":\"1\",\"data\":1}"), Err(misfit("ttl")));
    assert_eq!(unwrap_response("{\"code\":\"x\",\"message\":5}"), Err(misfit("code")));
}

#[test]
fn envelope_payload_of_any_shape() {
    assert_eq!(unwrap_response("{\"code\":0,\"data\":5}"), Ok(uint(5)));
    assert_eq!(unwrap_response("{\"code\":0,\"data\":\"t\"}"), Ok(text("t")));
    assert_eq!(unwrap_response("{\"code\":0,\"data\":[]}"), Ok(JsonValue::Array(vec![])));
    assert_eq!(unwrap_response("{\"code\":0,\"data\":false}"), Ok(JsonValue::Bool(false)));
}

#[test]
fn read_envelope_fills_absent_fields() {
    let e = read_envelope(&object(vec![("ttl", uint(1)), ("data", text("d"))])).unwrap();
    assert_eq!(e, Response { code: 0, message: String::new(), ttl: 1, data: Some(text("d")) });
}

#[test]
fn response_into_result() {
    let ok = Response { code: 0, message: "m".to_string(), ttl: 1, data: Some(5) };
    assert_eq!(ok.into_result(), Ok(5));
    let empty: Response<i32> = Response { code: 0, message: "m".to_string(), ttl: 1, data: None };
    assert_eq!(empty.into_result(), Err(ApiError::EmptyPayload));
    let failed = Response { code: -1, message: "m".to_string(), ttl: 1, data: Some(5) };
    assert_eq!(failed.into_result(), Err(ApiError::Remote(-1, "m".to_string())));
}
