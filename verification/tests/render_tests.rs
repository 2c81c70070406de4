use zhihu_daily::content::{Content, Story};
use zhihu_daily::date::{parse_yyyymmdd, CalDate};
use zhihu_daily::render::{escape_html, render_html};

fn story(title: &str, url: &str, hint: &str) -> Story {
    Story {
        image_hue: None,
        title: title.to_string(),
        url: url.to_string(),
        hint: hint.to_string(),
        ga_prefix: "0101".to_string(),
        images: None,
        _type: 0,
        id: 1,
    }
}

fn page_head() -> String {
    let mut head = String::new();
    head.push_str("<!DOCTYPE html><html><head><meta charset=\"utf-8\">");
    head.push_str("<title>知乎日报</title>");
    head.push_str("<link rel=\"stylesheet\" href=\"/main.css\"></head>");
    head.push_str("<body><header><h1><span class=\"day\">");
    head
}

#[test]
fn escapes_html_metacharacters() {
    assert_eq!(escape_html("a&b"), "a&amp;b");
    assert_eq!(escape_html("<i>"), "&lt;i&gt;");
    assert_eq!(escape_html("say \"hi\""), "say &quot;hi&quot;");
    assert_eq!(escape_html("&<>\""), "&amp;&lt;&gt;&quot;");
    assert_eq!(escape_html("plain 文本"), "plain 文本");
    assert_eq!(escape_html(""), "");
}

#[test]
fn renders_a_digest_without_top_stories() {
    let content = Content {
        date: "20230101".to_string(),
        stories: vec![story("A&B", "http://x/?a=1&b=2", "h<i>")],
        top_stories: None,
    };
    let d = parse_yyyymmdd("20230101").unwrap();
    let cal = CalDate::new(&d);
    let page = render_html(&content, &cal);
    let expected = page_head()
        + "1</span><span class=\"month\">一月</span></h1></header>"
        + "<ul class=\"stories\">"
        + "<li><a href=\"http://x/?a=1&amp;b=2\">A&amp;B</a>"
        + "<span class=\"hint\">h&lt;i&gt;</span></li>"
        + "</ul></body></html>";
    assert_eq!(page, expected);
}

#[test]
fn renders_top_stories_before_the_list() {
    let content = Content {
        date: "20231215".to_string(),
        stories: vec![story("s1", "u1", "h1"), story("s2", "u2", "h2")],
        top_stories: Some(vec![story("top", "tu", "th")]),
    };
    let d = parse_yyyymmdd("20231215").unwrap();
    let cal = CalDate::new(&d);
    let page = render_html(&content, &cal);
    let expected = page_head()
        + "15</span><span class=\"month\">十二月</span></h1></header>"
        + "<section class=\"top\"><a class=\"top-story\" href=\"tu\">top</a></section>"
        + "<ul class=\"stories\">"
        + "<li><a href=\"u1\">s1</a><span class=\"hint\">h1</span></li>"
        + "<li><a href=\"u2\">s2</a><span class=\"hint\">h2</span></li>"
        + "</ul></body></html>";
    assert_eq!(page, expected);
}

#[test]
fn renders_an_empty_digest() {
    let content = Content {
        date: "20230601".to_string(),
        stories: vec![],
        top_stories: None,
    };
    let d = parse_yyyymmdd("20230601").unwrap();
    let cal = CalDate::new(&d);
    let page = render_html(&content, &cal);
    let expected = page_head()
        + "1</span><span class=\"month\">六月</span></h1></header>"
        + "<ul class=\"stories\"></ul></body></html>";
    assert_eq!(page, expected);
}

#[test]
fn rendering_is_deterministic() {
    let make = || Content {
        date: "20230101".to_string(),
        stories: vec![story("t", "u", "h"), story("x&y", "u2", "")],
        top_stories: Some(vec![story("top", "tu", "")]),
    };
    let d = parse_yyyymmdd("20230101").unwrap();
    let first = render_html(&make(), &CalDate::new(&d));
    let second = render_html(&make(), &CalDate::new(&d));
    assert_eq!(first.into_bytes(), second.into_bytes());
}
