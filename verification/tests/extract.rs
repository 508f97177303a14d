use bilirust::extract::{
    extract, navigate, season_path, season_state, slice_between, ExtractError, NavStep,
    SEASON_END, SEASON_QUERY, SEASON_START,
};
use bilirust::json::{JsonNumber, JsonValue};

fn text(s: &str) -> JsonValue {
    JsonValue::String(s.to_string())
}

fn uint(n: u64) -> JsonValue {
    JsonValue::Number(JsonNumber::PosInt(n))
}

fn object(entries: Vec<(&str, JsonValue)>) -> JsonValue {
    JsonValue::Object(entries.into_iter().map(|(k, v)| (k.to_string(), v)).collect())
}

fn key(name: &str) -> NavStep {
    NavStep::Key(name.to_string())
}

fn find(field: &str, literal: &str) -> NavStep {
    NavStep::Find { field: field.to_string(), literal: literal.to_string() }
}

fn query(keys: Vec<JsonValue>, id: u64) -> JsonValue {
    object(vec![("queryKey", JsonValue::Array(keys)), ("id", uint(id))])
}

#[test]
fn extract_between_markers() {
    assert_eq!(
        extract("<html>PREFIX{\"a\":1}SUFFIX</html>", "PREFIX", "SUFFIX"),
        Ok("{\"a\":1}".to_string())
    );
    assert_eq!(extract("PREFIX{\"a\":1}SUFFIX", "PREFIX", "SUFFIX"), Ok("{\"a\":1}".to_string()));
}

#[test]
fn extract_without_start_marker() {
    assert_eq!(
        extract("{\"a\":1}SUFFIX", "PREFIX", "SUFFIX"),
        Err(ExtractError::MarkerNotFound("PREFIX".to_string()))
    );
}

#[test]
fn extract_without_end_marker() {
    assert_eq!(
        extract("PREFIX{\"a\":1}", "PREFIX", "SUFFIX"),
        Err(ExtractError::MarkerNotFound("SUFFIX".to_string()))
    );
}

#[test]
fn extract_end_marker_only_before_start_marker() {
    assert_eq!(
        extract("SUFFIX PREFIX{\"a\":1}", "PREFIX", "SUFFIX"),
        Err(ExtractError::MarkerNotFound("SUFFIX".to_string()))
    );
}

#[test]
fn extract_text_that_is_no_json() {
    assert_eq!(extract("PREFIX{\"a\":SUFFIX", "PREFIX", "SUFFIX"), Err(ExtractError::InvalidJson));
    assert_eq!(extract("PREFIXSUFFIX", "PREFIX", "SUFFIX"), Err(ExtractError::InvalidJson));
}

#[test]
fn extract_takes_the_first_of_each_marker() {
    assert_eq!(extract("A1B A2B", "A", "B"), Ok("1".to_string()));
    assert_eq!(extract("B A 7 B 8 B", "A", "B"), Ok(" 7 ".to_string()));
}

#[test]
fn extract_with_characters_beyond_ascii() {
    assert_eq!(
        extract("\u{4e2d}\u{6587}<<\"\u{e9}\">>\u{6587}", "<<", ">>"),
        Ok("\"\u{e9}\"".to_string())
    );
    assert_eq!(extract("\u{e9}[1]\u{e8}", "\u{e9}", "\u{e8}"), Ok("[1]".to_string()));
}

#[test]
fn slice_between_does_not_look_at_the_text() {
    assert_eq!(slice_between("a(not json)b", "(", ")"), Ok("not json".to_string()));
    assert_eq!(slice_between("ab", "a", "b"), Ok(String::new()));
    assert_eq!(slice_between("abc", "", "c"), Ok("ab".to_string()));
    assert_eq!(slice_between("abc", "b", ""), Ok(String::new()));
}

#[test]
fn slice_between_marker_longer_than_the_text() {
    assert_eq!(
        slice_between("ab", "abc", "b"),
        Err(ExtractError::MarkerNotFound("abc".to_string()))
    );
}

#[test]
fn navigate_finds_the_item_by_its_query_key() {
    let wanted = query(vec![text("other"), text("wanted")], 2);
    let array = JsonValue::Array(vec![
        query(vec![text("first")], 1),
        wanted.clone(),
        query(vec![text("wanted")], 3),
    ]);
    assert_eq!(navigate(array, &vec![find("queryKey", "wanted")]), Ok(wanted));
}

#[test]
fn navigate_without_a_match() {
    let array = JsonValue::Array(vec![query(vec![text("first")], 1), query(vec![], 2)]);
    assert_eq!(
        navigate(array, &vec![find("queryKey", "wanted")]),
        Err(ExtractError::PredicateNoMatch)
    );
    assert_eq!(
        navigate(JsonValue::Array(vec![]), &vec![find("queryKey", "wanted")]),
        Err(ExtractError::PredicateNoMatch)
    );
}

#[test]
fn navigate_find_skips_items_of_other_shapes() {
    let wanted = query(vec![uint(1), text("wanted")], 4);
    let array = JsonValue::Array(vec![
        uint(1),
        object(vec![("queryKey", text("wanted"))]),
        object(vec![("other", JsonValue::Array(vec![text("wanted")]))]),
        wanted.clone(),
    ]);
    assert_eq!(navigate(array, &vec![find("queryKey", "wanted")]), Ok(wanted));
}

#[test]
fn navigate_find_on_what_is_no_array() {
    assert_eq!(
        navigate(object(vec![]), &vec![find("queryKey", "wanted")]),
        Err(ExtractError::PredicateNoMatch)
    );
}

#[test]
fn navigate_by_keys() {
    let doc = object(vec![("a", object(vec![("b", uint(7))]))]);
    assert_eq!(navigate(doc.clone(), &vec![key("a"), key("b")]), Ok(uint(7)));
    assert_eq!(navigate(doc.clone(), &vec![]), Ok(doc));
}

#[test]
fn navigate_names_the_key_that_is_missing() {
    let doc = object(vec![("a", object(vec![("b", uint(7))]))]);
    assert_eq!(
        navigate(doc.clone(), &vec![key("a"), key("c"), key("d")]),
        Err(ExtractError::KeyNotFound("c".to_string()))
    );
    assert_eq!(
        navigate(doc, &vec![key("a"), key("b"), key("d")]),
        Err(ExtractError::KeyNotFound("d".to_string()))
    );
}

#[test]
fn season_path_steps() {
    assert_eq!(
        season_path(),
        vec![
            key("props"),
            key("pageProps"),
            key("dehydratedState"),
            key("queries"),
            find("queryKey", "pgc/view/web/season"),
            key("state"),
            key("data"),
        ]
    );
    assert_eq!(SEASON_START, "<script id=\"__NEXT_DATA__\" type=\"application/json\">");
    assert_eq!(SEASON_END, "</script>");
    assert_eq!(SEASON_QUERY, "pgc/view/web/season");
}

#[test]
fn test_videos_info() {
    let html = "<html><script id=\"__NEXT_DATA__\" type=\"application/json\">\
        {\"props\":{\"pageProps\":{\"dehydratedState\":{\"queries\":[\
        {\"queryKey\":[\"other\"],\"state\":{\"data\":1}},\
        {\"queryKey\":[\"pgc/view/web/season\",5793],\"state\":{\"data\":{\"title\":\"t\"}}}\
        ]}}}}</script><script>var x;</script></html>";
    assert_eq!(season_state(html), Ok(object(vec![("title", text("t"))])));
}

#[test]
fn season_state_failures() {
    assert_eq!(
        season_state("<html></html>"),
        Err(ExtractError::MarkerNotFound(SEASON_START.to_string()))
    );
    let open = "<script id=\"__NEXT_DATA__\" type=\"application/json\">{}";
    assert_eq!(season_state(open), Err(ExtractError::MarkerNotFound(SEASON_END.to_string())));
    let broken = "<script id=\"__NEXT_DATA__\" type=\"application/json\">{</script>";
    assert_eq!(season_state(broken), Err(ExtractError::InvalidJson));
    let bare = "<script id=\"__NEXT_DATA__\" type=\"application/json\">{}</script>";
    assert_eq!(season_state(bare), Err(ExtractError::KeyNotFound("props".to_string())));
    let no_query = "<script id=\"__NEXT_DATA__\" type=\"application/json\">\
        {\"props\":{\"pageProps\":{\"dehydratedState\":{\"queries\":[]}}}}</script>";
    assert_eq!(season_state(no_query), Err(ExtractError::PredicateNoMatch));
    let no_state = "<script id=\"__NEXT_DATA__\" type=\"application/json\">\
        {\"props\":{\"pageProps\":{\"dehydratedState\":{\"queries\":[\
        {\"queryKey\":[\"pgc/view/web/season\"]}]}}}}</script>";
    assert_eq!(season_state(no_state), Err(ExtractError::KeyNotFound("state".to_string())));
}
