use zhihu_daily::response::{
    html_response, not_found_response, response_asset, Body, MediaType,
};
use zhihu_daily::strings::str_eq;

#[test]
fn an_asset_response_carries_the_bytes_unchanged() {
    let resp = response_asset(MediaType::Png, &[137, 80, 78, 71]);
    assert_eq!(resp.status, 200);
    assert_eq!(resp.content_type, MediaType::Png);
    assert!(matches!(resp.body, Body::Bytes(b) if b == vec![137, 80, 78, 71]));
}

#[test]
fn the_not_found_response_is_empty_plain_text() {
    let resp = not_found_response();
    assert_eq!(resp.status, 404);
    assert_eq!(resp.content_type, MediaType::Plain);
    assert!(matches!(resp.body, Body::Empty));
}

#[test]
fn an_html_response_carries_the_page() {
    let resp = html_response("<p>hi</p>".to_string());
    assert_eq!(resp.status, 200);
    assert_eq!(resp.content_type, MediaType::Html);
    assert!(matches!(resp.body, Body::Text(t) if t == "<p>hi</p>"));
}

#[test]
fn string_equality_is_by_characters() {
    assert!(str_eq("", ""));
    assert!(str_eq("abc", "abc"));
    assert!(str_eq("知乎", "知乎"));
    assert!(!str_eq("abc", "abd"));
    assert!(!str_eq("abc", "ab"));
    assert!(!str_eq("", "a"));
}
