//! The digest renderer.
//!
//! A digest and its calendar display render to one HTML page. The page
//! is a pure function of the two inputs: the header shows the day and
//! the localized month, an optional top section links the top stories,
//! and the story list links every story with its hint. Text drawn from
//! the upstream data is HTML-escaped.

use vstd::prelude::*;
use crate::content::{Content, ContentV, Story, StoryV};
use crate::date::{CalDate, CalDateV};
use crate::strings::push_char;

verus! {

/// The escape of one character for HTML text and attribute positions.
pub open spec fn escape_char(c: char) -> Seq<char> {
    if c == '&' {
        seq!['&', 'a', 'm', 'p', ';']
    } else if c == '<' {
        seq!['&', 'l', 't', ';']
    } else if c == '>' {
        seq!['&', 'g', 't', ';']
    } else if c == '"' {
        seq!['&', 'q', 'u', 'o', 't', ';']
    } else {
        seq![c]
    }
}

/// The HTML escape of a character sequence.
pub open spec fn escape_seq(s: Seq<char>) -> Seq<char>
    decreases s.len(),
{
    if s.len() == 0 {
        Seq::empty()
    } else {
        escape_char(s[0]) + escape_seq(s.skip(1))
    }
}

/// Escaping distributes over concatenation.
pub proof fn lemma_escape_append(a: Seq<char>, b: Seq<char>)
    ensures
        escape_seq(a + b) == escape_seq(a) + escape_seq(b),
    decreases a.len(),
{
    if a.len() == 0 {
        assert(a + b =~= b);
        assert(escape_seq(a) =~= Seq::<char>::empty());
        assert(escape_seq(a) + escape_seq(b) =~= escape_seq(b));
    } else {
        lemma_escape_append(a.skip(1), b);
        assert((a + b).skip(1) =~= a.skip(1) + b);
        assert((a + b)[0] == a[0]);
        assert(escape_char(a[0]) + (escape_seq(a.skip(1)) + escape_seq(b)) =~= (escape_char(a[0])
            + escape_seq(a.skip(1))) + escape_seq(b));
    }
}

/// The escape of a single-character sequence is that character's escape.
pub proof fn lemma_escape_singleton(c: char)
    ensures
        escape_seq(seq![c]) == escape_char(c),
{
    assert(seq![c].skip(1) =~= Seq::<char>::empty());
    assert(escape_char(c) + escape_seq(seq![c].skip(1)) =~= escape_char(c));
}

/// Escapes a string for inclusion in HTML text or a quoted attribute.
pub fn escape_html(s: &str) -> (r: String)
    ensures
        r@ == escape_seq(s@),
{
    let n = s.unicode_len();
    let mut r = String::new();
    let mut i: usize = 0;
    while i < n
        invariant
            n == s@.len(),
            i <= n,
            r@ == escape_seq(s@.take(i as int)),
        decreases n - i,
    {
        let c = s.get_char(i);
        if c == '&' {
            r.append("&amp;");
            proof {
                reveal_strlit("&amp;");
                assert("&amp;"@ =~= escape_char(c));
            }
        } else if c == '<' {
            r.append("&lt;");
            proof {
                reveal_strlit("&lt;");
                assert("&lt;"@ =~= escape_char(c));
            }
        } else if c == '>' {
            r.append("&gt;");
            proof {
                reveal_strlit("&gt;");
                assert("&gt;"@ =~= escape_char(c));
            }
        } else if c == '"' {
            r.append("&quot;");
            proof {
                reveal_strlit("&quot;");
                assert("&quot;"@ =~= escape_char(c));
            }
        } else {
            push_char(&mut r, c);
            proof {
                assert(r@ =~= escape_seq(s@.take(i as int)) + escape_char(c));
            }
        }
        proof {
            assert(s@.take(i + 1) =~= s@.take(i as int) + seq![s@[i as int]]);
            lemma_escape_append(s@.take(i as int), seq![s@[i as int]]);
            lemma_escape_singleton(s@[i as int]);
            assert(r@ =~= escape_seq(s@.take(i + 1)));
        }
        i += 1;
    }
    proof {
        assert(s@.take(n as int) =~= s@);
    }
    r
}

/// The list item of one story: a link with the escaped title, followed
/// by the escaped hint.
pub open spec fn story_html(s: StoryV) -> Seq<char> {
    "<li><a href=\""@ + escape_seq(s.url) + "\">"@ + escape_seq(s.title)
        + "</a><span class=\"hint\">"@ + escape_seq(s.hint) + "</span></li>"@
}

/// The list items of a story sequence, in order.
pub open spec fn stories_html(ss: Seq<StoryV>) -> Seq<char>
    decreases ss.len(),
{
    if ss.len() == 0 {
        Seq::empty()
    } else {
        story_html(ss[0]) + stories_html(ss.skip(1))
    }
}

/// Story list rendering distributes over concatenation.
pub proof fn lemma_stories_append(a: Seq<StoryV>, b: Seq<StoryV>)
    ensures
        stories_html(a + b) == stories_html(a) + stories_html(b),
    decreases a.len(),
{
    if a.len() == 0 {
        assert(a + b =~= b);
        assert(stories_html(a) =~= Seq::<char>::empty());
        assert(stories_html(a) + stories_html(b) =~= stories_html(b));
    } else {
        lemma_stories_append(a.skip(1), b);
        assert((a + b).skip(1) =~= a.skip(1) + b);
        assert((a + b)[0] == a[0]);
        assert(story_html(a[0]) + (stories_html(a.skip(1)) + stories_html(b)) =~= (story_html(a[0])
            + stories_html(a.skip(1))) + stories_html(b));
    }
}

/// The list of one story renders to that story's item alone.
pub proof fn lemma_stories_singleton(s: StoryV)
    ensures
        stories_html(seq![s]) == story_html(s),
{
    assert(seq![s].skip(1) =~= Seq::<StoryV>::empty());
    assert(stories_html(seq![s]) == story_html(seq![s][0]) + stories_html(seq![s].skip(1)));
    assert(story_html(s) + stories_html(seq![s].skip(1)) =~= story_html(s));
}

/// The link of one top story.
pub open spec fn top_story_html(s: StoryV) -> Seq<char> {
    "<a class=\"top-story\" href=\""@ + escape_seq(s.url) + "\">"@ + escape_seq(s.title) + "</a>"@
}

/// The links of a top-story sequence, in order.
pub open spec fn top_stories_html(ss: Seq<StoryV>) -> Seq<char>
    decreases ss.len(),
{
    if ss.len() == 0 {
        Seq::empty()
    } else {
        top_story_html(ss[0]) + top_stories_html(ss.skip(1))
    }
}

/// Top-story rendering distributes over concatenation.
pub proof fn lemma_top_stories_append(a: Seq<StoryV>, b: Seq<StoryV>)
    ensures
        top_stories_html(a + b) == top_stories_html(a) + top_stories_html(b),
    decreases a.len(),
{
    if a.len() == 0 {
        assert(a + b =~= b);
        assert(top_stories_html(a) =~= Seq::<char>::empty());
        assert(top_stories_html(a) + top_stories_html(b) =~= top_stories_html(b));
    } else {
        lemma_top_stories_append(a.skip(1), b);
        assert((a + b).skip(1) =~= a.skip(1) + b);
        assert((a + b)[0] == a[0]);
        assert(top_story_html(a[0]) + (top_stories_html(a.skip(1)) + top_stories_html(b)) =~= (
        top_story_html(a[0]) + top_stories_html(a.skip(1))) + top_stories_html(b));
    }
}

/// The list of one top story renders to that story's link alone.
pub proof fn lemma_top_stories_singleton(s: StoryV)
    ensures
        top_stories_html(seq![s]) == top_story_html(s),
{
    assert(seq![s].skip(1) =~= Seq::<StoryV>::empty());
    assert(top_stories_html(seq![s]) == top_story_html(seq![s][0]) + top_stories_html(
        seq![s].skip(1),
    ));
    assert(top_story_html(s) + top_stories_html(seq![s].skip(1)) =~= top_story_html(s));
}

/// The top section of the page, present exactly when the digest has
/// top stories.
pub open spec fn top_section_html(ts: Option<Seq<StoryV>>) -> Seq<char> {
    match ts {
        Some(ss) => "<section class=\"top\">"@ + top_stories_html(ss) + "</section>"@,
        None => Seq::empty(),
    }
}

/// The whole page of a digest and its calendar display.
pub open spec fn render_spec(c: ContentV, cal: CalDateV) -> Seq<char> {
    "<!DOCTYPE html><html><head><meta charset=\"utf-8\"><title>知乎日报</title><link rel=\"stylesheet\" href=\"/main.css\"></head><body><header><h1><span class=\"day\">"@
        + cal.day + "</span><span class=\"month\">"@ + cal.month + "</span></h1></header>"@
        + top_section_html(c.top_stories) + "<ul class=\"stories\">"@ + stories_html(c.stories)
        + "</ul></body></html>"@
}

/// Appends one story's list item.
fn append_story(r: &mut String, s: &Story)
    ensures
        final(r)@ == old(r)@ + story_html(s@),
{
    r.append("<li><a href=\"");
    let u = escape_html(s.url.as_str());
    r.append(u.as_str());
    r.append("\">");
    let t = escape_html(s.title.as_str());
    r.append(t.as_str());
    r.append("</a><span class=\"hint\">");
    let h = escape_html(s.hint.as_str());
    r.append(h.as_str());
    r.append("</span></li>");
    proof {
        assert(r@ =~= old(r)@ + story_html(s@));
    }
}

/// Appends the list items of every story, in order.
fn append_stories(r: &mut String, ss: &Vec<Story>)
    ensures
        final(r)@ == old(r)@ + stories_html(ss.deep_view()),
{
    let ghost sv = ss.deep_view();
    let mut i: usize = 0;
    while i < ss.len()
        invariant
            i <= ss.len(),
            sv == ss.deep_view(),
            sv.len() == ss.len(),
            r@ == old(r)@ + stories_html(sv.take(i as int)),
        decreases ss.len() - i,
    {
        append_story(r, &ss[i]);
        proof {
            assert(sv[i as int] == ss[i as int]@);
            assert(sv.take(i + 1) =~= sv.take(i as int) + seq![sv[i as int]]);
            lemma_stories_append(sv.take(i as int), seq![sv[i as int]]);
            lemma_stories_singleton(sv[i as int]);
            assert(r@ =~= old(r)@ + stories_html(sv.take(i + 1)));
        }
        i += 1;
    }
    proof {
        assert(sv.take(ss.len() as int) =~= sv);
    }
}

/// Appends one top story's link.
fn append_top_story(r: &mut String, s: &Story)
    ensures
        final(r)@ == old(r)@ + top_story_html(s@),
{
    r.append("<a class=\"top-story\" href=\"");
    let u = escape_html(s.url.as_str());
    r.append(u.as_str());
    r.append("\">");
    let t = escape_html(s.title.as_str());
    r.append(t.as_str());
    r.append("</a>");
    proof {
        assert(r@ =~= old(r)@ + top_story_html(s@));
    }
}

/// Appends the links of every top story, in order.
fn append_top_stories(r: &mut String, ss: &Vec<Story>)
    ensures
        final(r)@ == old(r)@ + top_stories_html(ss.deep_view()),
{
    let ghost sv = ss.deep_view();
    let mut i: usize = 0;
    while i < ss.len()
        invariant
            i <= ss.len(),
            sv == ss.deep_view(),
            sv.len() == ss.len(),
            r@ == old(r)@ + top_stories_html(sv.take(i as int)),
        decreases ss.len() - i,
    {
        append_top_story(r, &ss[i]);
        proof {
            assert(sv[i as int] == ss[i as int]@);
            assert(sv.take(i + 1) =~= sv.take(i as int) + seq![sv[i as int]]);
            lemma_top_stories_append(sv.take(i as int), seq![sv[i as int]]);
            lemma_top_stories_singleton(sv[i as int]);
            assert(r@ =~= old(r)@ + top_stories_html(sv.take(i + 1)));
        }
        i += 1;
    }
    proof {
        assert(sv.take(ss.len() as int) =~= sv);
    }
}

/// Renders a digest and its calendar display to the page. The result
/// is exactly `render_spec` of the two inputs and of nothing else.
pub fn render_html(content: &Content, cal: &CalDate) -> (r: String)
    ensures
        r@ == render_spec(content@, cal@),
{
    let mut r = String::new();
    r.append(
        "<!DOCTYPE html><html><head><meta charset=\"utf-8\"><title>知乎日报</title><link rel=\"stylesheet\" href=\"/main.css\"></head><body><header><h1><span class=\"day\">",
    );
    r.append(cal.day.as_str());
    r.append("</span><span class=\"month\">");
    r.append(cal.month.as_str());
    r.append("</span></h1></header>");
    match &content.top_stories {
        Some(ts) => {
            r.append("<section class=\"top\">");
            append_top_stories(&mut r, ts);
            r.append("</section>");
        },
        None => {},
    }
    r.append("<ul class=\"stories\">");
    append_stories(&mut r, &content.stories);
    r.append("</ul></body></html>");
    proof {
        assert(r@ =~= render_spec(content@, cal@));
    }
    r
}

/// Rendering is deterministic: one digest and one calendar display
/// have exactly one rendered page, so two renders of the same input
/// are character-identical.
pub proof fn lemma_render_deterministic(c: ContentV, cal: CalDateV, r1: Seq<char>, r2: Seq<char>)
    requires
        r1 == render_spec(c, cal),
        r2 == render_spec(c, cal),
    ensures
        r1 == r2,
{
}

} // verus!
