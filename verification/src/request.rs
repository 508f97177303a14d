//! The requests that the client sends, as plain descriptions: where each goes
//! and what it carries.

use crate::codec::{av_to_bv, short_code};
use crate::entities::{FavListOrder, VideoQuality};
use crate::json::{entries_model, lemma_object_view, JsonModel, JsonNumber, JsonValue, NumberModel};
use crate::sign::{sign_form, signed, SignError};
use vstd::prelude::*;
use vstd::string::*;

verus! {

/// The host of the common service.
pub const API_HOST_URL: &'static str = "https://api.bilibili.com";

/// The host of the login service.
pub const PASSPORT_HOST_URL: &'static str = "https://passport.bilibili.com";

/// The address under which season pages stand.
pub const SEASON_PAGE_URL: &'static str = "https://www.bilibili.com/bangumi/play/";

/// The key of the television application.
pub const APP_KEY_TV: &'static str = "4409e2ce8ffd12b8";

/// The secret of the television application.
pub const APP_SEC_TV: &'static str = "59b43e04ad6965f34319062b478f83dd";

/// The local id that the television application sends.
pub const LOCAL_ID_TV: &'static str = "0";

/// How a request is sent.
#[derive(Debug, Clone, Copy, PartialEq, Eq, Structural)]
pub enum Method {
    Get,
    Post,
}

/// A request to the common service.
#[derive(Debug, PartialEq, Eq)]
pub struct ApiRequest {
    pub method: Method,
    pub path: String,
    pub query: Option<JsonValue>,
    pub body: Option<JsonValue>,
}

/// The session of a client: the session data of a login, once it is set.
#[derive(Debug, Clone, PartialEq, Eq)]
pub struct Session {
    pub sess_data: Option<String>,
}

/// The model of the integer `n` as a JSON number.
pub open spec fn int_model(n: i64) -> JsonModel {
    if n >= 0 {
        JsonModel::Number(NumberModel::PosInt(n as u64))
    } else {
        JsonModel::Number(NumberModel::NegInt(n))
    }
}

/// The entry `key: text`.
pub open spec fn text_entry(key: Seq<char>, text: Seq<char>) -> (Seq<char>, JsonModel) {
    (key, JsonModel::String(text))
}

/// The entry `key: n`.
pub open spec fn int_entry(key: Seq<char>, n: i64) -> (Seq<char>, JsonModel) {
    (key, int_model(n))
}

/// Whether `r` is a `GET` request for `path` with the query parameters
/// `query` and without a body.
pub open spec fn is_get(r: ApiRequest, path: Seq<char>, query: Seq<(Seq<char>, JsonModel)>) -> bool {
    &&& r.method == Method::Get
    &&& r.path@ == path
    &&& r.query matches Some(q) && q@ == JsonModel::Object(query)
    &&& r.body is None
}

/// The integer `n` as a JSON number.
pub fn int_value(n: i64) -> (v: JsonValue)
    ensures
        v@ == int_model(n),
{
    if n >= 0 {
        JsonValue::Number(JsonNumber::PosInt(n as u64))
    } else {
        JsonValue::Number(JsonNumber::NegInt(n))
    }
}

/// The entry `key: text`.
fn with_text(key: &str, text: &str) -> (e: (String, JsonValue))
    ensures
        e.0@ == key@,
        e.1@ == JsonModel::String(text@),
{
    (String::from_str(key), JsonValue::String(String::from_str(text)))
}

/// The entry `key: n`.
fn with_int(key: &str, n: i64) -> (e: (String, JsonValue))
    ensures
        e.0@ == key@,
        e.1@ == int_model(n),
{
    (String::from_str(key), int_value(n))
}

/// The entry `key: b`.
fn with_bool(key: &str, b: bool) -> (e: (String, JsonValue))
    ensures
        e.0@ == key@,
        e.1@ == JsonModel::Bool(b),
{
    (String::from_str(key), JsonValue::Bool(b))
}

/// A `GET` request for `path` with the query parameters `query`.
fn get(path: &str, query: Vec<(String, JsonValue)>) -> (r: ApiRequest)
    ensures
        is_get(r, path@, entries_model(query@)),
{
    proof {
        lemma_object_view(query);
    }
    ApiRequest {
        method: Method::Get,
        path: String::from_str(path),
        query: Some(JsonValue::Object(query)),
        body: None,
    }
}

impl Session {
    /// A session without a login.
    pub fn new() -> (s: Session)
        ensures
            s.sess_data is None,
    {
        Session { sess_data: None }
    }

    /// Sets the session data of a login; data set before is replaced.
    pub fn login_set_sess_data(&mut self, sess_data: String)
        ensures
            final(self).sess_data == Some(sess_data),
    {
        self.sess_data = Some(sess_data);
    }

    /// The cookie that carries the session, if a login is set.
    pub fn cookie(&self) -> (c: Option<String>)
        ensures
            match self.sess_data {
                Some(d) => c matches Some(t) && t@ == "SESSDATA="@ + d@,
                None => c is None,
            },
    {
        match &self.sess_data {
            Some(d) => {
                let mut t: String = String::from_str("SESSDATA=");
                t.append(d.as_str());
                Some(t)
            },
            None => None,
        }
    }
}

/// The address of `path` on the common service.
pub fn api_url(path: &str) -> (url: String)
    ensures
        url@ == API_HOST_URL@ + path@,
{
    let mut url: String = String::from_str(API_HOST_URL);
    url.append(path);
    url
}

/// The address of `path` on the login service.
pub fn passport_url(path: &str) -> (url: String)
    ensures
        url@ == PASSPORT_HOST_URL@ + path@,
{
    let mut url: String = String::from_str(PASSPORT_HOST_URL);
    url.append(path);
    url
}

/// The address of the page of the season or episode `id`, such as `ss1234`
/// or `ep1234`.
pub fn videos_info(id: &str) -> (url: String)
    ensures
        url@ == SEASON_PAGE_URL@ + id@,
{
    let mut url: String = String::from_str(SEASON_PAGE_URL);
    url.append(id);
    url
}

/// The request for the account of the user who is logged in.
pub fn my_info() -> (r: ApiRequest)
    ensures
        r.method == Method::Get,
        r.path@ == "/x/space/myinfo"@,
        r.query is None,
        r.body is None,
{
    ApiRequest {
        method: Method::Get,
        path: String::from_str("/x/space/myinfo"),
        query: None,
        body: None,
    }
}

/// The request for the video with the short code `bvid`.
pub fn bv_info(bvid: &str) -> (r: ApiRequest)
    ensures
        is_get(r, "/x/web-interface/view"@, seq![text_entry("bvid"@, bvid@)]),
{
    let mut query: Vec<(String, JsonValue)> = Vec::new();
    query.push(with_text("bvid", bvid));
    assert(entries_model(query@) =~= seq![text_entry("bvid"@, bvid@)]);
    get("/x/web-interface/view", query)
}

/// The request for the video with the numeric id `avid`.
pub fn av_info(avid: i64) -> (r: ApiRequest)
    requires
        avid >= 0,
    ensures
        is_get(r, "/x/web-interface/view"@, seq![text_entry("bvid"@, short_code(avid))]),
{
    let code: String = av_to_bv(avid);
    bv_info(code.as_str())
}

/// The request for the addresses from which a part of a video can be loaded.
pub fn bv_download_url(bvid: &str, cid: i64, fnval: i64, video_quality: VideoQuality) -> (r:
    ApiRequest)
    ensures
        is_get(
            r,
            "/x/player/playurl"@,
            seq![
                text_entry("bvid"@, bvid@),
                int_entry("cid"@, cid),
                int_entry("qn"@, video_quality.code),
                int_entry("fnval"@, fnval),
                int_entry("fnver"@, 0),
                int_entry("fourk"@, 1),
            ],
        ),
{
    let mut query: Vec<(String, JsonValue)> = Vec::new();
    query.push(with_text("bvid", bvid));
    query.push(with_int("cid", cid));
    query.push(with_int("qn", video_quality.code));
    query.push(with_int("fnval", fnval));
    query.push(with_int("fnver", 0));
    query.push(with_int("fourk", 1));
    assert(entries_model(query@) =~= seq![
        text_entry("bvid"@, bvid@),
        int_entry("cid"@, cid),
        int_entry("qn"@, video_quality.code),
        int_entry("fnval"@, fnval),
        int_entry("fnver"@, 0),
        int_entry("fourk"@, 1),
    ]);
    get("/x/player/playurl", query)
}

/// The request for the public account of the user `mid`.
pub fn user_info(mid: i64) -> (r: ApiRequest)
    ensures
        is_get(
            r,
            "/x/space/acc/info"@,
            seq![
                int_entry("mid"@, mid),
                text_entry("token"@, ""@),
                text_entry("platform"@, "web"@),
                text_entry("jsonp"@, "jsonp"@),
            ],
        ),
{
    let mut query: Vec<(String, JsonValue)> = Vec::new();
    query.push(with_int("mid", mid));
    query.push(with_text("token", ""));
    query.push(with_text("platform", "web"));
    query.push(with_text("jsonp", "jsonp"));
    assert(entries_model(query@) =~= seq![
        int_entry("mid"@, mid),
        text_entry("token"@, ""@),
        text_entry("platform"@, "web"@),
        text_entry("jsonp"@, "jsonp"@),
    ]);
    get("/x/space/acc/info", query)
}

/// The request for a page of the collections and series of the user `mid`.
/// Pages count from 1.
pub fn seasons_series_list_data(mid: i64, page_num: i64, page_size: i64) -> (r: ApiRequest)
    ensures
        is_get(
            r,
            "/x/polymer/space/seasons_series_list"@,
            seq![
                int_entry("mid"@, mid),
                int_entry("page_num"@, page_num),
                int_entry("page_size"@, page_size),
            ],
        ),
{
    let mut query: Vec<(String, JsonValue)> = Vec::new();
    query.push(with_int("mid", mid));
    query.push(with_int("page_num", page_num));
    query.push(with_int("page_size", page_size));
    assert(entries_model(query@) =~= seq![
        int_entry("mid"@, mid),
        int_entry("page_num"@, page_num),
        int_entry("page_size"@, page_size),
    ]);
    get("/x/polymer/space/seasons_series_list", query)
}

/// The request for a page of the videos of the collection `sid` of the user
/// `mid`. Pages count from 1.
pub fn collection_video_page(
    mid: i64,
    sid: i64,
    sort_reverse: bool,
    page_num: i64,
    page_size: i64,
) -> (r: ApiRequest)
    ensures
        is_get(
            r,
            "/x/polymer/space/seasons_archives_list"@,
            seq![
                int_entry("mid"@, mid),
                int_entry("season_id"@, sid),
                ("sort_reverse"@, JsonModel::Bool(sort_reverse)),
                int_entry("page_num"@, page_num),
                int_entry("page_size"@, page_size),
            ],
        ),
{
    let mut query: Vec<(String, JsonValue)> = Vec::new();
    query.push(with_int("mid", mid));
    query.push(with_int("season_id", sid));
    query.push(with_bool("sort_reverse", sort_reverse));
    query.push(with_int("page_num", page_num));
    query.push(with_int("page_size", page_size));
    assert(entries_model(query@) =~= seq![
        int_entry("mid"@, mid),
        int_entry("season_id"@, sid),
        ("sort_reverse"@, JsonModel::Bool(sort_reverse)),
        int_entry("page_num"@, page_num),
        int_entry("page_size"@, page_size),
    ]);
    get("/x/polymer/space/seasons_archives_list", query)
}

/// The request for the series `series_id`.
pub fn series_info(series_id: i64) -> (r: ApiRequest)
    ensures
        is_get(r, "/x/series/series"@, seq![int_entry("series_id"@, series_id)]),
{
    let mut query: Vec<(String, JsonValue)> = Vec::new();
    query.push(with_int("series_id", series_id));
    assert(entries_model(query@) =~= seq![int_entry("series_id"@, series_id)]);
    get("/x/series/series", query)
}

/// The request for a page of the list of favourites `fid`, with the videos
/// that the keyword selects, in the order `order`. Pages count from 1.
pub fn fav_list_page(
    fid: i64,
    page_num: i64,
    page_size: i64,
    keyword: Option<String>,
    order: FavListOrder,
) -> (r: ApiRequest)
    ensures
        is_get(
            r,
            "/x/v3/fav/resource/list"@,
            seq![
                int_entry("media_id"@, fid),
                int_entry("pn"@, page_num),
                int_entry("ps"@, page_size),
                text_entry(
                    "keyword"@,
                    match keyword {
                        Some(k) => k@,
                        None => ""@,
                    },
                ),
                text_entry("order"@, order.name()),
                int_entry("type"@, 0),
                text_entry("platform"@, "web"@),
            ],
        ),
{
    let word: String = match &keyword {
        Some(k) => k.clone(),
        None => String::from_str(""),
    };
    assert(word@ == match keyword {
        Some(k) => k@,
        None => ""@,
    });
    let mut query: Vec<(String, JsonValue)> = Vec::new();
    query.push(with_int("media_id", fid));
    query.push(with_int("pn", page_num));
    query.push(with_int("ps", page_size));
    query.push(with_text("keyword", word.as_str()));
    query.push(with_text("order", order.as_str()));
    query.push(with_int("type", 0));
    query.push(with_text("platform", "web"));
    assert(entries_model(query@) =~= seq![
        int_entry("media_id"@, fid),
        int_entry("pn"@, page_num),
        int_entry("ps"@, page_size),
        text_entry(
            "keyword"@,
            match keyword {
                Some(k) => k@,
                None => ""@,
            },
        ),
        text_entry("order"@, order.name()),
        int_entry("type"@, 0),
        text_entry("platform"@, "web"@),
    ]);
    get("/x/v3/fav/resource/list", query)
}

/// The parameters of a request for a login code for a television, before
/// they are signed. `ts` is the time stamp that the request carries.
pub open spec fn tv_code_parameters(ts: Seq<char>) -> JsonModel {
    JsonModel::Object(
        seq![
            text_entry("appkey"@, APP_KEY_TV@),
            text_entry("local_id"@, LOCAL_ID_TV@),
            text_entry("ts"@, ts),
        ],
    )
}

/// The parameters of a poll of the login code `auth_code` for a television,
/// before they are signed. `ts` is the time stamp that the request carries.
pub open spec fn tv_poll_parameters(auth_code: Seq<char>, ts: Seq<char>) -> JsonModel {
    JsonModel::Object(
        seq![
            text_entry("appkey"@, APP_KEY_TV@),
            text_entry("auth_code"@, auth_code),
            text_entry("local_id"@, LOCAL_ID_TV@),
            text_entry("ts"@, ts),
        ],
    )
}

/// The signed form of a request for a login code for a television. `ts` is
/// the time stamp that the request carries.
pub fn tv_login_qr(ts: &str) -> (r: Result<JsonValue, SignError>)
    ensures
        match r {
            Ok(v) => signed(tv_code_parameters(ts@), APP_SEC_TV@) == Ok::<JsonModel, SignError>(v@),
            Err(e) => signed(tv_code_parameters(ts@), APP_SEC_TV@) == Err::<JsonModel, SignError>(
                e,
            ),
        },
{
    let mut form: Vec<(String, JsonValue)> = Vec::new();
    form.push(with_text("appkey", APP_KEY_TV));
    form.push(with_text("local_id", LOCAL_ID_TV));
    form.push(with_text("ts", ts));
    proof {
        lemma_object_view(form);
        assert(entries_model(form@) =~= tv_code_parameters(ts@)->Object_0);
    }
    sign_form(JsonValue::Object(form), APP_SEC_TV)
}

/// The signed form of a poll of the login code `auth_code` for a television.
/// `ts` is the time stamp that the request carries.
pub fn tv_login_qr_info(auth_code: &str, ts: &str) -> (r: Result<JsonValue, SignError>)
    ensures
        match r {
            Ok(v) => signed(tv_poll_parameters(auth_code@, ts@), APP_SEC_TV@) == Ok::<
                JsonModel,
                SignError,
            >(v@),
            Err(e) => signed(tv_poll_parameters(auth_code@, ts@), APP_SEC_TV@) == Err::<
                JsonModel,
                SignError,
            >(e),
        },
{
    let mut form: Vec<(String, JsonValue)> = Vec::new();
    form.push(with_text("appkey", APP_KEY_TV));
    form.push(with_text("auth_code", auth_code));
    form.push(with_text("local_id", LOCAL_ID_TV));
    form.push(with_text("ts", ts));
    proof {
        lemma_object_view(form);
        assert(entries_model(form@) =~= tv_poll_parameters(auth_code@, ts@)->Object_0);
    }
    sign_form(JsonValue::Object(form), APP_SEC_TV)
}

/// The form of a poll of the login code `oauth_key`.
pub fn login_qr_info(oauth_key: &str) -> (form: JsonValue)
    ensures
        form@ == JsonModel::Object(seq![text_entry("oauthKey"@, oauth_key@)]),
{
    let mut entries: Vec<(String, JsonValue)> = Vec::new();
    entries.push(with_text("oauthKey", oauth_key));
    proof {
        lemma_object_view(entries);
        assert(entries_model(entries@) =~= seq![text_entry("oauthKey"@, oauth_key@)]);
    }
    JsonValue::Object(entries)
}

} // verus!
