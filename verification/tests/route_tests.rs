use zhihu_daily::routes::{before_url, latest_url, route_of, Route};

#[test]
fn routes_the_home_page() {
    assert!(matches!(route_of("/"), Route::Home));
}

#[test]
fn routes_the_static_assets() {
    assert!(matches!(route_of("/favicon.ico"), Route::Favicon));
    assert!(matches!(route_of("/logo.png"), Route::Logo));
    assert!(matches!(route_of("/main.css"), Route::Stylesheet));
}

#[test]
fn routes_a_date_lookup_with_the_token_verbatim() {
    assert!(matches!(route_of("/before/20230101"), Route::Before(t) if t == "20230101"));
    assert!(matches!(route_of("/before/not-a-date"), Route::Before(t) if t == "not-a-date"));
    assert!(matches!(route_of("/before/"), Route::Before(t) if t.is_empty()));
}

#[test]
fn routes_everything_else_to_not_found() {
    assert!(matches!(route_of(""), Route::NotFound));
    assert!(matches!(route_of("/nope"), Route::NotFound));
    assert!(matches!(route_of("/before"), Route::NotFound));
    assert!(matches!(route_of("/befor/20230101"), Route::NotFound));
    assert!(matches!(route_of("/favicon.ico/"), Route::NotFound));
    assert!(matches!(route_of("/index.html"), Route::NotFound));
}

#[test]
fn the_latest_endpoint_is_fixed() {
    assert_eq!(latest_url(), "https://news-at.zhihu.com/api/3/news/latest");
}

#[test]
fn the_lookup_url_appends_the_token_unchanged() {
    assert_eq!(
        before_url("20230101"),
        "https://news-at.zhihu.com/api/3/news/before/20230101"
    );
    assert_eq!(
        before_url("x?&y"),
        "https://news-at.zhihu.com/api/3/news/before/x?&y"
    );
}
