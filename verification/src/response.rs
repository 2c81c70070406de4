//! The response model.
//!
//! A response is a status code, a media type and a body. The three
//! builders cover everything the server sends: an embedded asset, the
//! rendered page, and the empty not-found answer.

use vstd::prelude::*;
use vstd::slice::slice_to_vec;

verus! {

/// The media types the server serves.
#[derive(Clone, Copy, PartialEq, Eq, Structural, Debug)]
pub enum MediaType {
    Ico,
    Png,
    Css,
    Html,
    Plain,
}

impl MediaType {
    /// The essence of the media type's MIME name.
    pub open spec fn mime_spec(self) -> Seq<char> {
        match self {
            MediaType::Ico => "image/x-icon"@,
            MediaType::Png => "image/png"@,
            MediaType::Css => "text/css"@,
            MediaType::Html => "text/html"@,
            MediaType::Plain => "text/plain"@,
        }
    }

    /// The MIME name of the media type.
    pub fn mime_str(&self) -> (r: &'static str)
        ensures
            r@ == self.mime_spec(),
    {
        match self {
            MediaType::Ico => "image/x-icon",
            MediaType::Png => "image/png",
            MediaType::Css => "text/css",
            MediaType::Html => "text/html",
            MediaType::Plain => "text/plain",
        }
    }
}

/// The mathematical value of a response body.
pub ghost enum BodyV {
    Bytes(Seq<u8>),
    Text(Seq<char>),
    Empty,
}

/// A response body: raw asset bytes, rendered text, or nothing.
pub enum Body {
    Bytes(Vec<u8>),
    Text(String),
    Empty,
}

impl View for Body {
    type V = BodyV;

    open spec fn view(&self) -> BodyV {
        match self {
            Body::Bytes(b) => BodyV::Bytes(b@),
            Body::Text(t) => BodyV::Text(t@),
            Body::Empty => BodyV::Empty,
        }
    }
}

/// The mathematical value of a response.
pub ghost struct HttpResponseV {
    pub status: int,
    pub content_type: MediaType,
    pub body: BodyV,
}

/// One HTTP response, ready for the protocol driver to frame and send.
pub struct HttpResponse {
    pub status: u16,
    pub content_type: MediaType,
    pub body: Body,
}

impl View for HttpResponse {
    type V = HttpResponseV;

    open spec fn view(&self) -> HttpResponseV {
        HttpResponseV { status: self.status as int, content_type: self.content_type, body: self.body@ }
    }
}

/// A successful response carrying an embedded asset verbatim.
pub open spec fn asset_response_spec(mime: MediaType, bytes: Seq<u8>) -> HttpResponseV {
    HttpResponseV { status: 200, content_type: mime, body: BodyV::Bytes(bytes) }
}

/// The not-found response: empty plain-text body, status 404.
pub open spec fn not_found_spec() -> HttpResponseV {
    HttpResponseV { status: 404, content_type: MediaType::Plain, body: BodyV::Empty }
}

/// A successful response carrying a rendered page.
pub open spec fn html_response_spec(page: Seq<char>) -> HttpResponseV {
    HttpResponseV { status: 200, content_type: MediaType::Html, body: BodyV::Text(page) }
}

/// Wraps an embedded asset in a successful response of the given media
/// type, the bytes unchanged.
pub fn response_asset(mime: MediaType, asset: &[u8]) -> (r: HttpResponse)
    ensures
        r@ == asset_response_spec(mime, asset@),
{
    HttpResponse { status: 200, content_type: mime, body: Body::Bytes(slice_to_vec(asset)) }
}

/// The not-found response.
pub fn not_found_response() -> (r: HttpResponse)
    ensures
        r@ == not_found_spec(),
{
    HttpResponse { status: 404, content_type: MediaType::Plain, body: Body::Empty }
}

/// Wraps a rendered page in a successful HTML response.
pub fn html_response(page: String) -> (r: HttpResponse)
    ensures
        r@ == html_response_spec(page@),
{
    HttpResponse { status: 200, content_type: MediaType::Html, body: Body::Text(page) }
}

} // verus!
