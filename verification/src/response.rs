//! Responses and their wire framing.
//!
//! Every response is framed the same way: a status line, then, for a
//! response that carries a typed body, a `Content-Type` and a
//! `Content-Length` header, then one blank line, then the body bytes and
//! nothing after them. `Content-Length` is exactly the byte length of the
//! body. A response without a content type has an empty body.

use vstd::prelude::*;
use crate::ascii::content_length_key;
use crate::ascii::content_length_key_bytes;
use crate::ascii::content_type_key;
use crate::ascii::content_type_key_bytes;
use crate::ascii::crlf;
use crate::ascii::crlf_bytes;
use crate::ascii::http_version_prefix;
use crate::ascii::http_version_prefix_bytes;
use crate::ascii::media_octet_stream;
use crate::ascii::media_octet_stream_bytes;
use crate::ascii::media_text_plain;
use crate::ascii::media_text_plain_bytes;
use crate::ascii::phrase_created;
use crate::ascii::phrase_created_bytes;
use crate::ascii::phrase_not_found;
use crate::ascii::phrase_not_found_bytes;
use crate::ascii::phrase_ok;
use crate::ascii::phrase_ok_bytes;
use crate::ascii::phrase_server_error;
use crate::ascii::phrase_server_error_bytes;
use crate::bytes::dec_bytes;
use crate::bytes::dec_rep;
use crate::bytes::push_all;

verus! {

/// The statuses the service answers with.
#[derive(Debug, Clone, Copy, PartialEq, Eq)]
pub enum Status {
    /// 200.
    Success,
    /// 201.
    Created,
    /// 404.
    NotFound,
    /// 500.
    InternalError,
}

/// One response: status, optional content type, body bytes.
#[derive(Debug, PartialEq, Eq)]
pub struct Response {
    pub status: Status,
    pub content_type: Option<Vec<u8>>,
    pub body: Vec<u8>,
}

/// The mathematical value of a response.
pub ghost struct ResponseModel {
    pub status: Status,
    pub content_type: Option<Seq<u8>>,
    pub body: Seq<u8>,
}

impl ResponseModel {
    /// A response without a content type carries no body.
    pub open spec fn wf(self) -> bool {
        self.content_type is None ==> self.body.len() == 0
    }
}

impl View for Response {
    type V = ResponseModel;

    open spec fn view(&self) -> ResponseModel {
        ResponseModel {
            status: self.status,
            content_type: match self.content_type {
                Some(ct) => Some(ct@),
                None => None,
            },
            body: self.body@,
        }
    }
}

/// The numeric code of a status.
pub open spec fn spec_status_code(st: Status) -> u16 {
    match st {
        Status::Success => 200,
        Status::Created => 201,
        Status::NotFound => 404,
        Status::InternalError => 500,
    }
}

impl Status {
    /// The numeric code of this status.
    pub fn code(&self) -> (c: u16)
        ensures
            c == spec_status_code(*self),
    {
        match self {
            Status::Success => 200,
            Status::Created => 201,
            Status::NotFound => 404,
            Status::InternalError => 500,
        }
    }
}

/// The status line of a status, without its terminator.
pub open spec fn status_line(st: Status) -> Seq<u8> {
    http_version_prefix() + match st {
        Status::Success => phrase_ok(),
        Status::Created => phrase_created(),
        Status::NotFound => phrase_not_found(),
        Status::InternalError => phrase_server_error(),
    }
}

/// The header block after the status line: type and length for a typed
/// body, nothing otherwise.
pub open spec fn header_block(r: ResponseModel) -> Seq<u8> {
    match r.content_type {
        Some(ct) => content_type_key() + ct + crlf() + content_length_key() + dec_rep(r.body.len())
            + crlf(),
        None => Seq::empty(),
    }
}

/// The full wire bytes of a response: status line, terminator, header
/// block, blank line, body.
pub open spec fn render_spec(r: ResponseModel) -> Seq<u8> {
    status_line(r.status) + crlf() + header_block(r) + crlf() + r.body
}

/// Renders a response to its wire bytes.
pub fn render(r: &Response) -> (out: Vec<u8>)
    ensures
        out@ == render_spec(r@),
{
    let mut out = http_version_prefix_bytes();
    let phrase = match r.status {
        Status::Success => phrase_ok_bytes(),
        Status::Created => phrase_created_bytes(),
        Status::NotFound => phrase_not_found_bytes(),
        Status::InternalError => phrase_server_error_bytes(),
    };
    push_all(&mut out, phrase.as_slice());
    let lf = crlf_bytes();
    push_all(&mut out, lf.as_slice());
    match &r.content_type {
        Some(ct) => {
            let ct_key = content_type_key_bytes();
            push_all(&mut out, ct_key.as_slice());
            push_all(&mut out, ct.as_slice());
            push_all(&mut out, lf.as_slice());
            let cl_key = content_length_key_bytes();
            push_all(&mut out, cl_key.as_slice());
            let len = dec_bytes(r.body.len());
            push_all(&mut out, len.as_slice());
            push_all(&mut out, lf.as_slice());
        },
        None => {},
    }
    push_all(&mut out, lf.as_slice());
    push_all(&mut out, r.body.as_slice());
    proof {
        assert(out@ =~= render_spec(r@));
    }
    out
}

/// The 200 response with an empty body.
pub open spec fn success_empty_model() -> ResponseModel {
    ResponseModel { status: Status::Success, content_type: None, body: Seq::empty() }
}

/// The 200 response that carries `body` as `text/plain`.
pub open spec fn text_response_model(body: Seq<u8>) -> ResponseModel {
    ResponseModel { status: Status::Success, content_type: Some(media_text_plain()), body }
}

/// The 200 response that carries `body` as `application/octet-stream`.
pub open spec fn octet_response_model(body: Seq<u8>) -> ResponseModel {
    ResponseModel { status: Status::Success, content_type: Some(media_octet_stream()), body }
}

/// The 201 response with an empty body.
pub open spec fn created_model() -> ResponseModel {
    ResponseModel { status: Status::Created, content_type: None, body: Seq::empty() }
}

/// The 404 response with an empty body.
pub open spec fn not_found_model() -> ResponseModel {
    ResponseModel { status: Status::NotFound, content_type: None, body: Seq::empty() }
}

/// The 500 response with an empty body.
pub open spec fn server_error_model() -> ResponseModel {
    ResponseModel { status: Status::InternalError, content_type: None, body: Seq::empty() }
}

/// Builds the 200 response with an empty body.
pub fn success_empty() -> (r: Response)
    ensures
        r@ == success_empty_model(),
{
    Response { status: Status::Success, content_type: None, body: Vec::new() }
}

/// Builds the 200 response carrying `body` as `text/plain`.
pub fn text_response(body: Vec<u8>) -> (r: Response)
    ensures
        r@ == text_response_model(body@),
{
    Response { status: Status::Success, content_type: Some(media_text_plain_bytes()), body }
}

/// Builds the 200 response carrying `body` as `application/octet-stream`.
pub fn octet_response(body: Vec<u8>) -> (r: Response)
    ensures
        r@ == octet_response_model(body@),
{
    Response { status: Status::Success, content_type: Some(media_octet_stream_bytes()), body }
}

/// Builds the 201 response.
pub fn created_response() -> (r: Response)
    ensures
        r@ == created_model(),
{
    Response { status: Status::Created, content_type: None, body: Vec::new() }
}

/// Builds the 404 response.
pub fn not_found_response() -> (r: Response)
    ensures
        r@ == not_found_model(),
{
    Response { status: Status::NotFound, content_type: None, body: Vec::new() }
}

/// Builds the 500 response.
pub fn server_error_response() -> (r: Response)
    ensures
        r@ == server_error_model(),
{
    Response { status: Status::InternalError, content_type: None, body: Vec::new() }
}

} // verus!
