//! The per-request protocol of the server.
//!
//! A request is handled in at most two steps. `begin_request` decides
//! from the path alone: the static routes and not-found are answered at
//! once, the dynamic routes ask the caller for one upstream fetch.
//! `finish_request` turns the fetch's outcome into the final answer:
//! a rendered page on success, an error — never a page — on any
//! failure. The caller performs the fetch itself and owns the sockets;
//! each request's data is its own, shared with no other connection.

use vstd::prelude::*;
use crate::content::{Content, ContentV};
use crate::date::{caldate_spec, parse_yyyymmdd, valid_yyyymmdd, CalDate};
use crate::render::{render_html, render_spec};
use crate::response::{
    asset_response_spec, html_response, html_response_spec, not_found_response, not_found_spec,
    response_asset, BodyV, HttpResponse, HttpResponseV, MediaType,
};
use crate::routes::{route_of, route_spec, Route, RouteV};

verus! {

/// The three embedded static assets, bundled once at startup and never
/// re-read.
pub struct Assets {
    pub favicon: Vec<u8>,
    pub logo: Vec<u8>,
    pub css: Vec<u8>,
}

/// The mathematical value of a fetch demand.
pub ghost enum FetchKindV {
    Latest,
    Before(Seq<char>),
}

/// Which upstream fetch a dynamic route demands.
pub enum FetchKind {
    Latest,
    Before(String),
}

impl View for FetchKind {
    type V = FetchKindV;

    open spec fn view(&self) -> FetchKindV {
        match self {
            FetchKind::Latest => FetchKindV::Latest,
            FetchKind::Before(t) => FetchKindV::Before(t@),
        }
    }
}

/// The mathematical value of a first step.
pub ghost enum StepV {
    Done(HttpResponseV),
    Fetch(FetchKindV),
}

/// The first step of a request: either the finished response, or the
/// one fetch still needed.
pub enum Step {
    Done(HttpResponse),
    Fetch(FetchKind),
}

impl View for Step {
    type V = StepV;

    open spec fn view(&self) -> StepV {
        match self {
            Step::Done(r) => StepV::Done(r@),
            Step::Fetch(k) => StepV::Fetch(k@),
        }
    }
}

/// The mathematical value of a request failure.
pub ghost enum ServeErrorV {
    UpstreamFetch(Seq<char>),
    InvalidDate,
}

/// Why a dynamic request failed. The failure reaches the caller, which
/// tears the connection down; no error page is built.
#[derive(Debug)]
pub enum ServeError {
    UpstreamFetch(String),
    InvalidDate,
}

impl View for ServeError {
    type V = ServeErrorV;

    open spec fn view(&self) -> ServeErrorV {
        match self {
            ServeError::UpstreamFetch(m) => ServeErrorV::UpstreamFetch(m@),
            ServeError::InvalidDate => ServeErrorV::InvalidDate,
        }
    }
}

/// The mathematical value of a fetch outcome.
pub open spec fn fetch_view(fetch: Result<Content, String>) -> Result<ContentV, Seq<char>> {
    match fetch {
        Result::Ok(c) => Result::Ok(c@),
        Result::Err(m) => Result::Err(m@),
    }
}

/// The mathematical value of a request outcome.
pub open spec fn outcome_view(r: Result<HttpResponse, ServeError>) -> Result<
    HttpResponseV,
    ServeErrorV,
> {
    match r {
        Result::Ok(resp) => Result::Ok(resp@),
        Result::Err(e) => Result::Err(e@),
    }
}

/// The first step for a path, given the three embedded assets.
pub open spec fn begin_spec(path: Seq<char>, favicon: Seq<u8>, logo: Seq<u8>, css: Seq<u8>) -> StepV {
    match route_spec(path) {
        RouteV::Home => StepV::Fetch(FetchKindV::Latest),
        RouteV::Favicon => StepV::Done(asset_response_spec(MediaType::Ico, favicon)),
        RouteV::Logo => StepV::Done(asset_response_spec(MediaType::Png, logo)),
        RouteV::Stylesheet => StepV::Done(asset_response_spec(MediaType::Css, css)),
        RouteV::Before(t) => StepV::Fetch(FetchKindV::Before(t)),
        RouteV::NotFound => StepV::Done(not_found_spec()),
    }
}

/// Decides a request from its path: answers the static routes and
/// not-found at once, and names the one fetch a dynamic route needs.
pub fn begin_request(path: &str, assets: &Assets) -> (r: Step)
    ensures
        r@ == begin_spec(path@, assets.favicon@, assets.logo@, assets.css@),
{
    match route_of(path) {
        Route::Home => Step::Fetch(FetchKind::Latest),
        Route::Favicon => Step::Done(response_asset(MediaType::Ico, assets.favicon.as_slice())),
        Route::Logo => Step::Done(response_asset(MediaType::Png, assets.logo.as_slice())),
        Route::Stylesheet => Step::Done(response_asset(MediaType::Css, assets.css.as_slice())),
        Route::Before(t) => Step::Fetch(FetchKind::Before(t)),
        Route::NotFound => Step::Done(not_found_response()),
    }
}

/// The final answer for a fetch outcome: the rendered page when the
/// fetch succeeded and its date is a valid `YYYYMMDD` string, the
/// fetch's error or the date failure otherwise.
pub open spec fn finish_spec(fetch: Result<ContentV, Seq<char>>) -> Result<
    HttpResponseV,
    ServeErrorV,
> {
    match fetch {
        Result::Err(m) => Result::Err(ServeErrorV::UpstreamFetch(m)),
        Result::Ok(c) => if valid_yyyymmdd(c.date) {
            Result::Ok(html_response_spec(render_spec(c, caldate_spec(c.date))))
        } else {
            Result::Err(ServeErrorV::InvalidDate)
        },
    }
}

/// Finishes a dynamic request from its fetch outcome. Succeeds, with
/// the rendered page, exactly when the fetch succeeded and the
/// digest's date parses; a failed fetch or an unparseable date yields
/// the error and no page.
pub fn finish_request(fetch: Result<Content, String>) -> (r: Result<HttpResponse, ServeError>)
    ensures
        outcome_view(r) == finish_spec(fetch_view(fetch)),
        fetch is Err ==> r is Err,
{
    match fetch {
        Result::Err(m) => Result::Err(ServeError::UpstreamFetch(m)),
        Result::Ok(c) => {
            match parse_yyyymmdd(c.date.as_str()) {
                None => Result::Err(ServeError::InvalidDate),
                Some(d) => {
                    let cal = CalDate::new(&d);
                    proof {
                        assert(cal@ == caldate_spec(c@.date));
                    }
                    let page = render_html(&c, &cal);
                    Result::Ok(html_response(page))
                },
            }
        },
    }
}

/// The upstream's uniform failure message for an unsuccessful HTTP
/// status.
pub open spec fn status_error_message() -> Seq<char> {
    "request api error"@
}

/// Accepts exactly the successful HTTP status codes of an upstream
/// response; every other status is the uniform fetch error.
pub fn check_status(status: u16) -> (r: Result<(), ServeError>)
    ensures
        (r is Ok) == (200 <= status < 300),
        r matches Err(e) ==> e@ == ServeErrorV::UpstreamFetch(status_error_message()),
{
    if 200 <= status && status < 300 {
        Result::Ok(())
    } else {
        Result::Err(ServeError::UpstreamFetch(("request api error").to_owned()))
    }
}

/// The four fixed routes answer with status 200 and their exact media
/// types; the three static ones are answered from the embedded assets
/// alone, with no fetch, whatever the upstream's state, and the home
/// route demands the latest-digest fetch.
pub proof fn lemma_fixed_routes(favicon: Seq<u8>, logo: Seq<u8>, css: Seq<u8>)
    ensures
        begin_spec("/favicon.ico"@, favicon, logo, css) == StepV::Done(
            asset_response_spec(MediaType::Ico, favicon),
        ),
        begin_spec("/logo.png"@, favicon, logo, css) == StepV::Done(
            asset_response_spec(MediaType::Png, logo),
        ),
        begin_spec("/main.css"@, favicon, logo, css) == StepV::Done(
            asset_response_spec(MediaType::Css, css),
        ),
        begin_spec("/"@, favicon, logo, css) == StepV::Fetch(FetchKindV::Latest),
        asset_response_spec(MediaType::Ico, favicon).status == 200,
        asset_response_spec(MediaType::Png, logo).status == 200,
        asset_response_spec(MediaType::Css, css).status == 200,
{
    reveal_strlit("/");
    reveal_strlit("/favicon.ico");
    reveal_strlit("/logo.png");
    reveal_strlit("/main.css");
    reveal_strlit("/before/");
    assert("/"@.len() == 1);
    assert("/favicon.ico"@.len() == 12);
    assert("/logo.png"@.len() == 9);
    assert("/main.css"@.len() == 9);
    assert("/logo.png"@[1] == 'l');
    assert("/main.css"@[1] == 'm');
}

/// Every path outside the defined patterns is answered at once with
/// status 404, an empty body and the plain-text type.
pub proof fn lemma_unmatched_answer(path: Seq<char>, favicon: Seq<u8>, logo: Seq<u8>, css: Seq<u8>)
    requires
        route_spec(path) == RouteV::NotFound,
    ensures
        begin_spec(path, favicon, logo, css) == StepV::Done(not_found_spec()),
        not_found_spec().status == 404,
        not_found_spec().content_type == MediaType::Plain,
        not_found_spec().body == BodyV::Empty,
{
}

/// A browse-by-date request demands exactly one upstream fetch, whose
/// token is the rest of the path verbatim; the URL built for that
/// fetch appends the token unchanged to the fixed endpoint prefix.
pub proof fn lemma_lookup_demands_one_fetch(
    path: Seq<char>,
    favicon: Seq<u8>,
    logo: Seq<u8>,
    css: Seq<u8>,
)
    requires
        path.len() >= 8,
        path.take(8) == "/before/"@,
    ensures
        begin_spec(path, favicon, logo, css) == StepV::Fetch(FetchKindV::Before(path.skip(8))),
        crate::routes::before_url_spec(path.skip(8))
            == "https://news-at.zhihu.com/api/3/news/before/"@ + path.skip(8),
{
    crate::routes::lemma_before_token_verbatim(path);
}

/// A dynamic route whose fetch succeeds with a well-dated digest is
/// answered with status 200 and the HTML type, carrying the rendered
/// page; on upstream failure the connection is torn down instead, so
/// no other status is ever sent for it.
pub proof fn lemma_dynamic_success(c: ContentV)
    requires
        valid_yyyymmdd(c.date),
    ensures
        finish_spec(Result::Ok(c)) == Result::<HttpResponseV, ServeErrorV>::Ok(
            html_response_spec(render_spec(c, caldate_spec(c.date))),
        ),
        html_response_spec(render_spec(c, caldate_spec(c.date))).status == 200,
        html_response_spec(render_spec(c, caldate_spec(c.date))).content_type == MediaType::Html,
{
}

/// A failed upstream fetch fails the request: the outcome is the
/// fetch's error, and no page is built for it. Requests on other
/// connections share nothing with it and are untouched.
pub proof fn lemma_fetch_failure_yields_no_page(m: Seq<char>)
    ensures
        finish_spec(Result::Err(m)) == Result::<HttpResponseV, ServeErrorV>::Err(
            ServeErrorV::UpstreamFetch(m),
        ),
{
}

} // verus!
