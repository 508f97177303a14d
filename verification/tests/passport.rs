use bilirust::api::ApiError;
use bilirust::entities::{LoginQrData, LoginQrInfo, LoginTvQrInfo, TvLoginQrData, WebToken};
use bilirust::parse::from_str;
use bilirust::passport::{check_status, login_qr, login_qr_info, tv_login_qr, tv_login_qr_info};
use bilirust::token::{login_qr_info_parse_token, token_from_groups, TokenError, TOKEN_PATTERN};

fn misfit(path: &str) -> ApiError {
    ApiError::Malformed { path: path.to_string(), detail: "unexpected type".to_string() }
}

fn reply(text: &str) -> bilirust::json::JsonValue {
    from_str(text).unwrap()
}

#[test]
fn test_login_qr() {
    let json = reply("{\"code\":0,\"status\":true,\"data\":{\"url\":\"https://u\",\"oauthKey\":\"k\"}}");
    assert_eq!(
        login_qr(&json),
        Ok(LoginQrData { url: "https://u".to_string(), oauth_key: "k".to_string() })
    );
}

#[test]
fn login_qr_fills_absent_fields() {
    assert_eq!(
        login_qr(&reply("{\"code\":0,\"data\":{}}")),
        Ok(LoginQrData { url: String::new(), oauth_key: String::new() })
    );
}

#[test]
fn login_qr_failures() {
    assert_eq!(login_qr(&reply("{\"data\":{}}")), Err(misfit("code")));
    assert_eq!(login_qr(&reply("{\"code\":\"0\",\"data\":{}}")), Err(misfit("code")));
    assert_eq!(login_qr(&reply("[]")), Err(misfit("code")));
    assert_eq!(
        login_qr(&reply("{\"code\":-1,\"message\":\"no\",\"data\":{}}")),
        Err(ApiError::Remote(-1, "no".to_string()))
    );
    assert_eq!(login_qr(&reply("{\"code\":-1}")), Err(ApiError::Remote(-1, String::new())));
    assert_eq!(login_qr(&reply("{\"code\":0}")), Err(misfit("data")));
    assert_eq!(login_qr(&reply("{\"code\":0,\"data\":5}")), Err(misfit("data")));
    assert_eq!(login_qr(&reply("{\"code\":0,\"data\":{\"url\":1}}")), Err(misfit("data.url")));
    assert_eq!(
        login_qr(&reply("{\"code\":0,\"data\":{\"oauthKey\":null}}")),
        Err(misfit("data.oauthKey"))
    );
}

#[test]
fn check_status_of_replies() {
    assert_eq!(check_status(&reply("{\"code\":0}")), Ok(()));
    assert_eq!(
        check_status(&reply("{\"code\":5,\"message\":7}")),
        Err(ApiError::Remote(5, String::new()))
    );
    assert_eq!(check_status(&reply("{\"code\":1.0}")), Err(misfit("code")));
}

#[test]
fn test_tv_login_qr() {
    let json = reply("{\"code\":0,\"data\":{\"url\":\"https://u\",\"auth_code\":\"c\"}}");
    assert_eq!(
        tv_login_qr(&json),
        Ok(TvLoginQrData { url: "https://u".to_string(), auth_code: "c".to_string() })
    );
    assert_eq!(
        tv_login_qr(&reply("{\"code\":0,\"data\":{\"auth_code\":[]}}")),
        Err(misfit("data.auth_code"))
    );
}

#[test]
fn test_login_qr_info() {
    assert_eq!(
        login_qr_info(&reply("{\"status\":false,\"data\":-5,\"message\":\"Can't confirm~\"}")),
        Ok(LoginQrInfo { error_data: -5, url: String::new() })
    );
    assert_eq!(
        login_qr_info(&reply("{\"code\":0,\"status\":true,\"data\":{\"url\":\"https://x/y?z=1\"}}")),
        Ok(LoginQrInfo { error_data: 0, url: "https://x/y?z=1".to_string() })
    );
}

#[test]
fn login_qr_info_neither_shape() {
    assert_eq!(login_qr_info(&reply("{\"data\":\"x\"}")), Err(misfit("data.url")));
    assert_eq!(login_qr_info(&reply("{\"data\":{\"url\":5}}")), Err(misfit("data.url")));
    assert_eq!(login_qr_info(&reply("{\"data\":{}}")), Err(misfit("data.url")));
    assert_eq!(login_qr_info(&reply("{}")), Err(misfit("data.url")));
    assert_eq!(login_qr_info(&reply("{\"data\":1.5}")), Err(misfit("data.url")));
    assert_eq!(login_qr_info(&reply("7")), Err(misfit("data.url")));
}

#[test]
fn test_tv_login_qr_info() {
    assert_eq!(
        tv_login_qr_info(&reply("{\"code\":86039,\"message\":\"wait\",\"data\":null}")),
        Ok(LoginTvQrInfo {
            error_data: 86039,
            mid: 0,
            access_token: String::new(),
            refresh_token: String::new(),
            expires_in: 0,
        })
    );
    assert_eq!(
        tv_login_qr_info(&reply(
            "{\"code\":0,\"data\":{\"mid\":9,\"access_token\":\"a\",\"refresh_token\":\"r\",\"expires_in\":2592000}}"
        )),
        Ok(LoginTvQrInfo {
            error_data: 0,
            mid: 9,
            access_token: "a".to_string(),
            refresh_token: "r".to_string(),
            expires_in: 2592000,
        })
    );
}

#[test]
fn tv_login_qr_info_failures() {
    assert_eq!(tv_login_qr_info(&reply("{\"message\":\"x\"}")), Err(misfit("code")));
    assert_eq!(tv_login_qr_info(&reply("{\"code\":\"1\",\"data\":null}")), Err(misfit("code")));
    assert_eq!(tv_login_qr_info(&reply("{\"code\":0,\"data\":3}")), Err(misfit("data")));
    assert_eq!(
        tv_login_qr_info(&reply("{\"data\":{\"error_data\":\"x\"}}")),
        Err(misfit("data.error_data"))
    );
    assert_eq!(tv_login_qr_info(&reply("{\"data\":{\"mid\":\"9\"}}")), Err(misfit("data.mid")));
    assert_eq!(
        tv_login_qr_info(&reply("{\"data\":{\"access_token\":1}}")),
        Err(misfit("data.access_token"))
    );
    assert_eq!(
        tv_login_qr_info(&reply("{\"data\":{\"refresh_token\":1}}")),
        Err(misfit("data.refresh_token"))
    );
    assert_eq!(
        tv_login_qr_info(&reply("{\"data\":{\"expires_in\":1.5}}")),
        Err(misfit("data.expires_in"))
    );
}

#[test]
fn test_login_qr_info_parse() {
    let url = "https://passport.biligame.com/crossDomain?DedeUserID=1&DedeUserID__ckMd5=2&Expires=3&SESSDATA=4&bili_jct=5&gourl=http%3A%2F%2Fwww.bilibili.com";
    assert_eq!(
        login_qr_info_parse_token(url),
        Ok(WebToken {
            dedeuserid: 1,
            dedeuserid_ckmd5: "2".to_string(),
            sessdata: "4".to_string(),
            bili_jct: "5".to_string(),
            expires: 3,
        })
    );
}

#[test]
fn parse_token_of_a_longer_address() {
    let url = "https://p.example/crossDomain?DedeUserID=123456&DedeUserID__ckMd5=0a1b2c&Expires=15551000&SESSDATA=ab%2Ccd%2A11&bili_jct=f00d&gourl=x";
    assert_eq!(
        login_qr_info_parse_token(url),
        Ok(WebToken {
            dedeuserid: 123456,
            dedeuserid_ckmd5: "0a1b2c".to_string(),
            sessdata: "ab%2Ccd%2A11".to_string(),
            bili_jct: "f00d".to_string(),
            expires: 15551000,
        })
    );
}

#[test]
fn parse_token_without_a_match() {
    assert_eq!(login_qr_info_parse_token(""), Err(TokenError::NoMatch));
    assert_eq!(login_qr_info_parse_token("https://www.bilibili.com"), Err(TokenError::NoMatch));
    assert_eq!(
        login_qr_info_parse_token(
            "crossDomain?DedeUserID=1&DedeUserID__ckMd5=2&Expires=3&SESSDATA=4&bili_jct=5&g=1"
        ),
        Err(TokenError::NoMatch)
    );
    assert_eq!(
        login_qr_info_parse_token(
            "x/crossDomain?DedeUserID=1&DedeUserID__ckMd5=2&Expires=3&SESSDATA=4&bili_jct=5"
        ),
        Err(TokenError::NoMatch)
    );
    assert_eq!(
        login_qr_info_parse_token(
            "x/crossDomain?DedeUserID=1&DedeUserID__ckMd5=2A&Expires=3&SESSDATA=4&bili_jct=5&g=1"
        ),
        Err(TokenError::NoMatch)
    );
}

#[test]
fn parse_token_with_a_number_that_does_not_fit() {
    assert_eq!(
        login_qr_info_parse_token(
            "x/crossDomain?DedeUserID=9223372036854775808&DedeUserID__ckMd5=2&Expires=3&SESSDATA=4&bili_jct=5&g=1"
        ),
        Err(TokenError::BadNumber(1))
    );
    assert_eq!(
        login_qr_info_parse_token(
            "x/crossDomain?DedeUserID=9223372036854775807&DedeUserID__ckMd5=2&Expires=99999999999999999999&SESSDATA=4&bili_jct=5&g=1"
        ),
        Err(TokenError::BadNumber(3))
    );
}

#[test]
fn parse_token_with_digits_beyond_ascii() {
    assert_eq!(
        login_qr_info_parse_token(
            "x/crossDomain?DedeUserID=\u{0661}&DedeUserID__ckMd5=2&Expires=3&SESSDATA=4&bili_jct=5&g=1"
        ),
        Err(TokenError::BadNumber(1))
    );
}

#[test]
fn token_from_groups_of_a_match() {
    let groups = vec![
        Some("whole".to_string()),
        Some("10".to_string()),
        Some("ab".to_string()),
        Some("20".to_string()),
        Some("s".to_string()),
        Some("j".to_string()),
    ];
    assert_eq!(
        token_from_groups(&groups),
        Ok(WebToken {
            dedeuserid: 10,
            dedeuserid_ckmd5: "ab".to_string(),
            sessdata: "s".to_string(),
            bili_jct: "j".to_string(),
            expires: 20,
        })
    );
}

#[test]
fn token_from_groups_that_are_missing() {
    let some = |s: &str| Some(s.to_string());
    assert_eq!(token_from_groups(&vec![]), Err(TokenError::MissingGroup(1)));
    assert_eq!(token_from_groups(&vec![some("w")]), Err(TokenError::MissingGroup(1)));
    assert_eq!(
        token_from_groups(&vec![some("w"), some("1"), None, some("3"), some("4"), some("5")]),
        Err(TokenError::MissingGroup(2))
    );
    assert_eq!(
        token_from_groups(&vec![some("w"), some("1"), some("2"), None]),
        Err(TokenError::MissingGroup(3))
    );
    assert_eq!(
        token_from_groups(&vec![some("w"), some("1"), some("2"), some("3")]),
        Err(TokenError::MissingGroup(4))
    );
    assert_eq!(
        token_from_groups(&vec![some("w"), some("x"), some("2"), some("3"), some("4"), None]),
        Err(TokenError::MissingGroup(5))
    );
    assert_eq!(
        token_from_groups(&vec![some("w"), some("x"), some("2"), some("y"), some("4"), some("5")]),
        Err(TokenError::BadNumber(1))
    );
    assert_eq!(
        token_from_groups(&vec![some("w"), some("1"), some("2"), some(""), some("4"), some("5")]),
        Err(TokenError::BadNumber(3))
    );
}

#[test]
fn token_pattern_text() {
    assert_eq!(
        TOKEN_PATTERN,
        "^.+crossDomain\\?DedeUserID=(\\d+)&DedeUserID__ckMd5=([a-z0-9]+)&Expires=(\\d+)&SESSDATA=([^&]+)&bili_jct=([^&]+)&.+$"
    );
}
