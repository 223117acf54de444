use instagram_cli::error::ApiError;
use instagram_cli::text::{
    chars_of, extract_json_str, find_from, has_query_id, query_hash_from_script, reel_id, str_eq,
};

#[test]
fn extract_json_str_takes_the_shared_data_object() {
    let html = "<html><script>window._sharedData = {\"a\":{\"b\":1}};</script></html>";
    assert_eq!(extract_json_str(html).unwrap(), "{\"a\":{\"b\":1}}");
}

#[test]
fn extract_json_str_without_marker_fails() {
    let html = "<html><script>var x = {};</script></html>";
    assert_eq!(extract_json_str(html), Err(ApiError::InvalidSharedData));
    assert_eq!(extract_json_str(""), Err(ApiError::InvalidSharedData));
}

#[test]
fn extract_json_str_stops_at_a_second_marker() {
    let html = "window._sharedData = {\"x\":1window._sharedData = {\"y\":2};";
    assert_eq!(extract_json_str(html).unwrap(), "{\"x\":1}");
}

#[test]
fn extract_json_str_without_end_keeps_the_rest() {
    let html = "junk window._sharedData = {\"x\":[1,2]";
    assert_eq!(extract_json_str(html).unwrap(), "{\"x\":[1,2]}");
}

#[test]
fn extract_json_str_cuts_at_the_first_end() {
    let html = "window._sharedData = {\"a\":{}};{\"b\":2};";
    assert_eq!(extract_json_str(html).unwrap(), "{\"a\":{}}");
}

#[test]
fn extract_json_str_keeps_non_ascii_text() {
    let html = "window._sharedData = {\"name\":\"Zoë 🍕\"};";
    assert_eq!(extract_json_str(html).unwrap(), "{\"name\":\"Zoë 🍕\"}");
}

#[test]
fn query_hash_is_the_last_query_id() {
    let script = "a={},queryId:\"first\",b},queryId:\"second\",c},queryId:\"42abc\"};";
    assert!(has_query_id(script));
    assert_eq!(query_hash_from_script(script), "42abc");
}

#[test]
fn query_hash_without_closing_quote_runs_to_the_end() {
    let script = "x},queryId:\"abc";
    assert!(has_query_id(script));
    assert_eq!(query_hash_from_script(script), "abc");
}

#[test]
fn script_without_query_id() {
    assert!(!has_query_id("nothing to see here"));
    assert!(!has_query_id(""));
    assert!(!has_query_id("queryId:\"abc\""));
}

#[test]
fn reel_id_strips_the_highlight_prefix() {
    assert_eq!(reel_id("highlight:17890012345"), "17890012345");
    assert_eq!(reel_id("highlight:1:2"), "1");
    assert_eq!(reel_id("a:b:highlight:"), "b");
    assert_eq!(reel_id("highlight:"), "");
}

#[test]
fn reel_id_keeps_other_ids() {
    assert_eq!(reel_id("17890012345"), "17890012345");
    assert_eq!(reel_id("reel:17"), "reel:17");
    assert_eq!(reel_id(""), "");
}

#[test]
fn str_eq_compares_characters() {
    assert!(str_eq("abc", "abc"));
    assert!(str_eq("", ""));
    assert!(!str_eq("abc", "abd"));
    assert!(!str_eq("abc", "ab"));
    assert!(str_eq("é", "é"));
}

#[test]
fn chars_of_lists_characters() {
    assert_eq!(chars_of("aé🍕"), vec!['a', 'é', '🍕']);
    assert_eq!(chars_of(""), Vec::<char>::new());
}

#[test]
fn find_from_finds_the_first_occurrence() {
    let s = chars_of("abcabc");
    let p = chars_of("bc");
    assert_eq!(find_from(&s, &p, 0), Some(1));
    assert_eq!(find_from(&s, &p, 2), Some(4));
    assert_eq!(find_from(&s, &p, 5), None);
    assert_eq!(find_from(&s, &chars_of("abcabcd"), 0), None);
    assert_eq!(find_from(&s, &chars_of(""), 3), Some(3));
}

#[test]
fn extract_json_str_round_trip() {
    for (p, s, t) in [("", "{\"a\":1", ""), ("<p>", "{}", "tail};more"), ("x};", "{\"b\":[]", "window._sharedData = {};")] {
        let html = format!("{}window._sharedData = {}}};{}", p, s, t);
        assert_eq!(extract_json_str(&html).unwrap(), format!("{}}}", s));
    }
}

#[test]
fn extract_json_str_ignores_text_before_the_marker() {
    let html = "window._sharedData = {\"a\":2};rest";
    for p in ["", "<html>", "window._shared", "};"] {
        assert_eq!(extract_json_str(&format!("{}{}", p, html)), extract_json_str(html));
    }
}
