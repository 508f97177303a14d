use bilirust::entities::{
    default_bool, default_dimension, default_i64, default_option, default_owner, default_rights,
    default_stat, default_string, default_vec, video_quality_1080p, video_quality_240p,
    video_quality_4k, video_quality_720p, video_quality_hdr, Dimension, FavListOrder, Owner,
    Rights, Stat, FNVAL_DASH, FNVAL_DASH_AV1, FNVAL_FLV,
};
use bilirust::json::{JsonNumber, JsonValue};
use bilirust::request::{
    api_url, av_info, bv_download_url, bv_info, collection_video_page, fav_list_page, int_value,
    login_qr_info, my_info, passport_url, seasons_series_list_data, series_info, tv_login_qr,
    tv_login_qr_info, user_info, videos_info, ApiRequest, Method, Session, API_HOST_URL,
    PASSPORT_HOST_URL,
};

fn text(s: &str) -> JsonValue {
    JsonValue::String(s.to_string())
}

fn uint(n: u64) -> JsonValue {
    JsonValue::Number(JsonNumber::PosInt(n))
}

fn object(entries: Vec<(&str, JsonValue)>) -> JsonValue {
    JsonValue::Object(entries.into_iter().map(|(k, v)| (k.to_string(), v)).collect())
}

fn get(path: &str, query: Vec<(&str, JsonValue)>) -> ApiRequest {
    ApiRequest {
        method: Method::Get,
        path: path.to_string(),
        query: Some(object(query)),
        body: None,
    }
}

#[test]
fn test_my_info() {
    let mut session = Session::new();
    assert_eq!(session.cookie(), None);
    session.login_set_sess_data("sess_data".to_string());
    assert_eq!(session.cookie(), Some("SESSDATA=sess_data".to_string()));
    assert_eq!(
        my_info(),
        ApiRequest {
            method: Method::Get,
            path: "/x/space/myinfo".to_string(),
            query: None,
            body: None,
        }
    );
}

#[test]
fn session_data_is_replaced() {
    let mut session = Session::new();
    session.login_set_sess_data("one".to_string());
    session.login_set_sess_data("two".to_string());
    assert_eq!(session, Session { sess_data: Some("two".to_string()) });
}

#[test]
fn test_bv_info_info() {
    assert_eq!(
        bv_info("BV1TS4y1Q7Y9"),
        get("/x/web-interface/view", vec![("bvid", text("BV1TS4y1Q7Y9"))])
    );
}

#[test]
fn test_av_info() {
    assert_eq!(av_info(722327931), bv_info("BV1TS4y1Q7Y9"));
}

#[test]
fn test_bv_download_url() {
    assert_eq!(
        bv_download_url("BV1fK4y1t7hj", 196018899, FNVAL_DASH, video_quality_720p()),
        get(
            "/x/player/playurl",
            vec![
                ("bvid", text("BV1fK4y1t7hj")),
                ("cid", uint(196018899)),
                ("qn", uint(64)),
                ("fnval", uint(16)),
                ("fnver", uint(0)),
                ("fourk", uint(1)),
            ]
        )
    );
}

#[test]
fn user_info_request() {
    assert_eq!(
        user_info(7),
        get(
            "/x/space/acc/info",
            vec![
                ("mid", uint(7)),
                ("token", text("")),
                ("platform", text("web")),
                ("jsonp", text("jsonp")),
            ]
        )
    );
}

#[test]
fn seasons_series_list_request() {
    assert_eq!(
        seasons_series_list_data(7, 1, 30),
        get(
            "/x/polymer/space/seasons_series_list",
            vec![("mid", uint(7)), ("page_num", uint(1)), ("page_size", uint(30))]
        )
    );
}

#[test]
fn collection_video_page_request() {
    assert_eq!(
        collection_video_page(7, 8, true, 2, 30),
        get(
            "/x/polymer/space/seasons_archives_list",
            vec![
                ("mid", uint(7)),
                ("season_id", uint(8)),
                ("sort_reverse", JsonValue::Bool(true)),
                ("page_num", uint(2)),
                ("page_size", uint(30)),
            ]
        )
    );
}

#[test]
fn series_info_request() {
    assert_eq!(
        series_info(-3),
        get("/x/series/series", vec![("series_id", JsonValue::Number(JsonNumber::NegInt(-3)))])
    );
}

#[test]
fn fav_list_page_request() {
    assert_eq!(
        fav_list_page(5, 1, 20, Some("cat".to_string()), FavListOrder::View),
        get(
            "/x/v3/fav/resource/list",
            vec![
                ("media_id", uint(5)),
                ("pn", uint(1)),
                ("ps", uint(20)),
                ("keyword", text("cat")),
                ("order", text("view")),
                ("type", uint(0)),
                ("platform", text("web")),
            ]
        )
    );
    assert_eq!(
        fav_list_page(5, 1, 20, None, FavListOrder::Pubtime).query.unwrap().get("keyword"),
        Some(&text(""))
    );
}

#[test]
fn fav_list_order_names() {
    assert_eq!(FavListOrder::Mtime.as_str(), "mtime");
    assert_eq!(FavListOrder::View.as_str(), "view");
    assert_eq!(FavListOrder::Pubtime.as_str(), "pubtime");
}

#[test]
fn tv_login_qr_form_is_signed() {
    assert_eq!(
        tv_login_qr("7"),
        Ok(object(vec![
            ("appkey", text("4409e2ce8ffd12b8")),
            ("local_id", text("0")),
            ("ts", text("7")),
            ("sign", text("ee459ccbe6bc8b39ffdfb4383b5920ff")),
        ]))
    );
}

#[test]
fn tv_login_qr_info_form_is_signed() {
    assert_eq!(
        tv_login_qr_info("code", "12"),
        Ok(object(vec![
            ("appkey", text("4409e2ce8ffd12b8")),
            ("auth_code", text("code")),
            ("local_id", text("0")),
            ("ts", text("12")),
            ("sign", text("880b7f1f577cbbd7163173bfdcac890c")),
        ]))
    );
}

#[test]
fn login_qr_info_form() {
    assert_eq!(login_qr_info("code"), object(vec![("oauthKey", text("code"))]));
}

#[test]
fn addresses() {
    assert_eq!(API_HOST_URL, "https://api.bilibili.com");
    assert_eq!(PASSPORT_HOST_URL, "https://passport.bilibili.com");
    assert_eq!(api_url("/x/space/myinfo"), "https://api.bilibili.com/x/space/myinfo");
    assert_eq!(
        passport_url("/qrcode/getLoginUrl"),
        "https://passport.bilibili.com/qrcode/getLoginUrl"
    );
    assert_eq!(videos_info("ss5793"), "https://www.bilibili.com/bangumi/play/ss5793");
}

#[test]
fn int_value_of_integers() {
    assert_eq!(int_value(0), uint(0));
    assert_eq!(int_value(i64::MAX), uint(9223372036854775807));
    assert_eq!(int_value(-1), JsonValue::Number(JsonNumber::NegInt(-1)));
    assert_eq!(int_value(i64::MIN), JsonValue::Number(JsonNumber::NegInt(i64::MIN)));
}

#[test]
fn defaults() {
    assert_eq!(default_string(), "");
    assert_eq!(default_i64(), 0);
    assert!(!default_bool());
    assert_eq!(default_option::<i64>(), None);
    assert_eq!(default_vec::<i64>(), Vec::<i64>::new());
    assert_eq!(default_rights(), Rights::default());
    assert_eq!(default_rights().no_share, 0);
    assert_eq!(default_owner(), Owner { mid: 0, name: String::new(), face: String::new() });
    assert_eq!(default_stat(), Stat::default());
    assert_eq!(default_dimension(), Dimension { width: 0, height: 0, rotate: 0 });
}

#[test]
fn quality_codes_and_format_flags() {
    assert_eq!(video_quality_240p().code, 6);
    assert_eq!(video_quality_720p().code, 64);
    assert_eq!(video_quality_1080p().code, 80);
    assert_eq!(video_quality_4k().code, 120);
    assert_eq!(video_quality_hdr().code, 125);
    assert_eq!(FNVAL_FLV, 0);
    assert_eq!(FNVAL_DASH, 16);
    assert_eq!(FNVAL_DASH_AV1, 2048);
}
