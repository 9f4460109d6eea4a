//! Serving the documentation UI: which response answers a request for one of
//! its files.

use axum::body::{Bytes, Full};
use axum::http::StatusCode;
use std::sync::Arc;
use utoipa_swagger_ui::Config;
use vstd::prelude::*;
use vstd::string::StringExecFns;
use vstd::string::StrSliceExecFns;
use vstd::utf8::encode_utf8;

verus! {

/// Status of a response that carries a file of the UI.
pub const STATUS_OK: u16 = 200;

/// Status of the response to a request for a file that the UI does not have.
pub const STATUS_NOT_FOUND: u16 = 404;

/// Status of the response when looking the file up failed.
pub const STATUS_SERVER_ERROR: u16 = 500;

/// Content type of the response that reports a failed lookup: its body is the
/// error's text.
pub const ERROR_CONTENT_TYPE: &'static str = "text/plain; charset=utf-8";

/// Name of the header that carries a response's content type.
pub const CONTENT_TYPE_HEADER: &'static str = "content-type";

/// A file of the documentation UI.
#[derive(Debug)]
pub struct AssetFile {
    pub content_type: String,
    pub bytes: Vec<u8>,
}

/// An [`AssetFile`] as mathematical values.
pub struct AssetView {
    pub content_type: Seq<char>,
    pub bytes: Seq<u8>,
}

impl View for AssetFile {
    type V = AssetView;

    open spec fn view(&self) -> AssetView {
        AssetView { content_type: self.content_type@, bytes: self.bytes@ }
    }
}

/// The response to a request for a file of the documentation UI.
#[derive(Debug)]
pub struct DocsResponse {
    pub status: u16,
    pub content_type: Option<String>,
    pub body: Vec<u8>,
}

/// A [`DocsResponse`] as mathematical values.
pub struct DocsResponseView {
    pub status: u16,
    pub content_type: Option<Seq<char>>,
    pub body: Seq<u8>,
}

impl View for DocsResponse {
    type V = DocsResponseView;

    open spec fn view(&self) -> DocsResponseView {
        DocsResponseView {
            status: self.status,
            content_type: match self.content_type {
                Some(kind) => Some(kind@),
                None => None,
            },
            body: self.body@,
        }
    }
}

/// What a lookup found, as mathematical values.
pub open spec fn lookup_view(found: Result<Option<AssetFile>, String>) -> Result<
    Option<AssetView>,
    Seq<char>,
> {
    match found {
        Ok(Some(file)) => Ok(Some(file@)),
        Ok(None) => Ok(None),
        Err(text) => Err(text@),
    }
}

/// The response that answers a lookup: the file with its content type, an
/// empty 404 where there is no such file, and a 500 with the error's text
/// where the lookup failed.
pub open spec fn reply_for(found: Result<Option<AssetView>, Seq<char>>) -> DocsResponseView {
    match found {
        Ok(Some(file)) => DocsResponseView {
            status: STATUS_OK,
            content_type: Some(file.content_type),
            body: file.bytes,
        },
        Ok(None) => DocsResponseView {
            status: STATUS_NOT_FOUND,
            content_type: None,
            body: Seq::empty(),
        },
        Err(text) => DocsResponseView {
            status: STATUS_SERVER_ERROR,
            content_type: Some(ERROR_CONTENT_TYPE@),
            body: encode_utf8(text),
        },
    }
}

/// The path of a file within the UI, from what the route's wildcard took: the
/// capture without its first character, which is the slash.
pub open spec fn asset_key(tail: Seq<char>) -> Seq<char> {
    if tail.len() == 0 {
        tail
    } else {
        tail.subrange(1, tail.len() as int)
    }
}

/// What the UI bundle holds at `path` when it is set up to load the API
/// description from `spec_url`: the file with its content type, nothing, or
/// the text of the error that reading it gave.
pub uninterp spec fn swagger_ui_file(path: Seq<char>, spec_url: Seq<char>) -> Result<
    Option<AssetView>,
    Seq<char>,
>;

/// `utoipa_swagger_ui::serve` on a `Config` made from `spec_url`. The files
/// are compiled into the bundle, so what comes back depends on the two
/// arguments alone. An error is handed on as its text.
#[verifier::external_body]
fn bundled_file(path: &str, spec_url: &str) -> (found: Result<Option<AssetFile>, String>)
    ensures
        lookup_view(found) == swagger_ui_file(path@, spec_url@),
{
    match utoipa_swagger_ui::serve(path, Arc::new(Config::from(spec_url.to_string()))) {
        Ok(Some(file)) => Ok(
            Some(AssetFile { content_type: file.content_type, bytes: file.bytes.into_owned() }),
        ),
        Ok(None) => Ok(None),
        Err(error) => Err(error.to_string()),
    }
}

/// `axum::http::StatusCode`.
#[verifier::external_type_specification]
#[verifier::external_body]
pub struct ExStatusCode(StatusCode);

/// `axum::body::Full`, a body that is one chunk.
#[verifier::external_type_specification]
#[verifier::external_body]
#[verifier::reject_recursive_types(D)]
pub struct ExFull<D>(Full<D>);

/// `axum::body::Bytes`.
#[verifier::external_type_specification]
#[verifier::external_body]
pub struct ExBytes(Bytes);

/// A response in the shape that the web framework turns into an HTTP
/// response: status, the content type header if there is one, and the body.
pub type HttpParts = (StatusCode, Option<[(&'static str, String); 1]>, Full<Bytes>);

/// The number of a status code, as `StatusCode::as_u16` gives it.
pub uninterp spec fn status_number(code: StatusCode) -> u16;

/// The bytes that a one-chunk body sends.
pub uninterp spec fn body_bytes(body: Full<Bytes>) -> Seq<u8>;

/// The parts of an HTTP response as mathematical values: the status, the one
/// header with its name and value if there is one, and the body.
pub struct HttpPartsView {
    pub status: u16,
    pub header: Option<(Seq<char>, Seq<char>)>,
    pub body: Seq<u8>,
}

/// What is in the parts of an HTTP response.
pub open spec fn parts_view(parts: HttpParts) -> HttpPartsView {
    HttpPartsView {
        status: status_number(parts.0),
        header: match parts.1 {
            Some(pair) => Some((pair@[0].0@, pair@[0].1@)),
            None => None,
        },
        body: body_bytes(parts.2),
    }
}

/// The parts that send a response: its status and body as they are, and its
/// content type, where it has one, under the header `header`.
pub open spec fn parts_for(reply: DocsResponseView, header: Seq<char>) -> HttpPartsView {
    HttpPartsView {
        status: reply.status,
        header: match reply.content_type {
            Some(kind) => Some((header, kind)),
            None => None,
        },
        body: reply.body,
    }
}

/// A response as the parts of an HTTP response: `StatusCode::from_u16` of the
/// status, which takes the codes from 100 to 999 and keeps the number; the
/// content type, where there is one, as the value of the one header `header`;
/// and `Full::from` of the body, which sends the same bytes.
#[verifier::external_body]
fn http_parts(reply: DocsResponse, header: &'static str) -> (parts: HttpParts)
    requires
        100 <= reply.status <= 999,
    ensures
        status_number(parts.0) == reply.status,
        match reply.content_type {
            Some(kind) => parts.1 matches Some(pair) && pair@[0].0@ == header@ && pair@[0].1@
                == kind@,
            None => parts.1 is None,
        },
        body_bytes(parts.2) == reply.body@,
{
    (
        StatusCode::from_u16(reply.status).unwrap(),
        reply.content_type.map(|kind| [(header, kind)]),
        Full::from(reply.body),
    )
}

/// The response that answers a lookup.
pub fn docs_response(found: Result<Option<AssetFile>, String>) -> (reply: DocsResponse)
    ensures
        reply@ == reply_for(lookup_view(found)),
{
    match found {
        Ok(Some(file)) => DocsResponse {
            status: STATUS_OK,
            content_type: Some(file.content_type),
            body: file.bytes,
        },
        Ok(None) => DocsResponse { status: STATUS_NOT_FOUND, content_type: None, body: Vec::new() },
        Err(text) => DocsResponse {
            status: STATUS_SERVER_ERROR,
            content_type: Some(String::from_str(ERROR_CONTENT_TYPE)),
            body: text.as_str().as_bytes_vec(),
        },
    }
}

/// The path of a file within the UI, from what the route's wildcard took.
pub fn asset_path<'a>(tail: &'a str) -> (key: &'a str)
    ensures
        key@ == asset_key(tail@),
{
    let length = tail.unicode_len();
    if length == 0 {
        tail
    } else {
        tail.substring_char(1, length)
    }
}

/// Answers a request for the file of the documentation UI that the wildcard
/// capture `tail` names, for a UI that loads the API description from
/// `spec_url`.
pub fn serve_swagger_ui(tail: &str, spec_url: &str) -> (reply: DocsResponse)
    ensures
        reply@ == reply_for(swagger_ui_file(asset_key(tail@), spec_url@)),
{
    docs_response(bundled_file(asset_path(tail), spec_url))
}

/// The handler of the UI route, on owned values: the answer of
/// [`serve_swagger_ui`] as the parts of an HTTP response, with the content
/// type under its header.
pub(crate) fn asset_reply(tail: String, spec_url: String) -> (parts: HttpParts)
    ensures
        parts_view(parts) == parts_for(
            reply_for(swagger_ui_file(asset_key(tail@), spec_url@)),
            CONTENT_TYPE_HEADER@,
        ),
{
    http_parts(serve_swagger_ui(tail.as_str(), spec_url.as_str()), CONTENT_TYPE_HEADER)
}

} // verus!
