//! Request routing and the upstream endpoints.
//!
//! The router maps a request path to one of five behaviors: the home
//! page, three embedded assets, a browse-by-date lookup, or not found.
//! The upstream endpoints are two fixed URLs; the browse-by-date URL
//! carries the path's token verbatim, with no transformation.

use vstd::prelude::*;
use crate::strings::str_eq;

verus! {

/// The mathematical value of a routing decision.
pub ghost enum RouteV {
    Home,
    Favicon,
    Logo,
    Stylesheet,
    Before(Seq<char>),
    NotFound,
}

/// The routing decision for one request path.
pub enum Route {
    Home,
    Favicon,
    Logo,
    Stylesheet,
    Before(String),
    NotFound,
}

impl View for Route {
    type V = RouteV;

    open spec fn view(&self) -> RouteV {
        match self {
            Route::Home => RouteV::Home,
            Route::Favicon => RouteV::Favicon,
            Route::Logo => RouteV::Logo,
            Route::Stylesheet => RouteV::Stylesheet,
            Route::Before(t) => RouteV::Before(t@),
            Route::NotFound => RouteV::NotFound,
        }
    }
}

/// The routing table: four exact paths, a prefix match that takes the
/// rest of the path as an opaque date token, and not-found for all
/// else.
pub open spec fn route_spec(path: Seq<char>) -> RouteV {
    if path == "/"@ {
        RouteV::Home
    } else if path == "/favicon.ico"@ {
        RouteV::Favicon
    } else if path == "/logo.png"@ {
        RouteV::Logo
    } else if path == "/main.css"@ {
        RouteV::Stylesheet
    } else if path.len() >= 8 && path.take(8) == "/before/"@ {
        RouteV::Before(path.skip(8))
    } else {
        RouteV::NotFound
    }
}

/// Routes one request path.
pub fn route_of(path: &str) -> (r: Route)
    ensures
        r@ == route_spec(path@),
{
    if str_eq(path, "/") {
        Route::Home
    } else if str_eq(path, "/favicon.ico") {
        Route::Favicon
    } else if str_eq(path, "/logo.png") {
        Route::Logo
    } else if str_eq(path, "/main.css") {
        Route::Stylesheet
    } else {
        let n = path.unicode_len();
        if n >= 8 && str_eq(path.substring_char(0, 8), "/before/") {
            proof {
                assert(path@.subrange(0, 8) == path@.take(8));
            }
            let token = path.substring_char(8, n);
            proof {
                assert(token@ =~= path@.skip(8));
            }
            Route::Before(token.to_owned())
        } else {
            proof {
                if n >= 8 {
                    assert(path@.subrange(0, 8) == path@.take(8));
                }
            }
            Route::NotFound
        }
    }
}

/// The fixed upstream endpoint of the latest digest.
pub open spec fn latest_url_spec() -> Seq<char> {
    "https://news-at.zhihu.com/api/3/news/latest"@
}

/// The fixed upstream endpoint prefix of a browse-by-date lookup,
/// with the date token appended verbatim.
pub open spec fn before_url_spec(token: Seq<char>) -> Seq<char> {
    "https://news-at.zhihu.com/api/3/news/before/"@ + token
}

/// The URL of the latest digest.
pub fn latest_url() -> (r: String)
    ensures
        r@ == latest_url_spec(),
{
    ("https://news-at.zhihu.com/api/3/news/latest").to_owned()
}

/// The URL of a browse-by-date lookup: the fixed prefix with the date
/// token appended verbatim, unescaped and unvalidated.
pub fn before_url(date: &str) -> (r: String)
    ensures
        r@ == before_url_spec(date@),
{
    let mut u = ("https://news-at.zhihu.com/api/3/news/before/").to_owned();
    u.append(date);
    u
}

/// A path under the browse-by-date prefix routes to a lookup whose
/// token is the rest of the path, verbatim, and the upstream URL built
/// for it appends that token unchanged to the fixed endpoint prefix.
pub proof fn lemma_before_token_verbatim(path: Seq<char>)
    requires
        path.len() >= 8,
        path.take(8) == "/before/"@,
    ensures
        route_spec(path) == RouteV::Before(path.skip(8)),
        before_url_spec(path.skip(8)) == "https://news-at.zhihu.com/api/3/news/before/"@
            + path.skip(8),
{
    reveal_strlit("/");
    reveal_strlit("/favicon.ico");
    reveal_strlit("/logo.png");
    reveal_strlit("/main.css");
    reveal_strlit("/before/");
    assert(path.take(8).len() == 8);
    assert(path != "/"@);
    if path == "/favicon.ico"@ {
        assert(path.take(8)[1] == path[1]);
        assert(false);
    }
    if path == "/logo.png"@ {
        assert(path.take(8)[1] == path[1]);
        assert(false);
    }
    if path == "/main.css"@ {
        assert(path.take(8)[1] == path[1]);
        assert(false);
    }
}

/// Every path that matches none of the defined patterns routes to
/// not-found.
pub proof fn lemma_unmatched_is_not_found(path: Seq<char>)
    requires
        path != "/"@,
        path != "/favicon.ico"@,
        path != "/logo.png"@,
        path != "/main.css"@,
        !(path.len() >= 8 && path.take(8) == "/before/"@),
    ensures
        route_spec(path) == RouteV::NotFound,
{
}

} // verus!
