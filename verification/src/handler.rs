//! The handlers and the per-request plan.
//!
//! A parsed request turns into exactly one plan: either a finished
//! response, or one file action (a fetch or a store) whose target the
//! caller resolves against the file system before the single response
//! goes out. Handler failures are explicit signals — a missing
//! client-identification header, the unsupported PUT on a file path, an
//! unconfigured base directory — and each maps to the server-error
//! response rather than to a crash.

use vstd::prelude::*;
use vstd::slice::slice_to_vec;
use crate::ascii::crlf;
use crate::ascii::root_path;
use crate::ascii::space_sep;
use crate::ascii::user_agent_key;
use crate::ascii::user_agent_key_bytes;
use crate::bytes::push_all;
use crate::bytes::split_on;
use crate::bytes::subvec;
use crate::request::find_header;
use crate::request::head_of;
use crate::request::header_views;
use crate::request::lookup_header;
use crate::request::parse_request_spec;
use crate::request::Method;
use crate::request::Request;
use crate::request::RequestModel;
use crate::request::StartLineModel;
use crate::response::created_model;
use crate::response::created_response;
use crate::response::not_found_model;
use crate::response::not_found_response;
use crate::response::octet_response;
use crate::response::octet_response_model;
use crate::response::server_error_model;
use crate::response::server_error_response;
use crate::response::success_empty;
use crate::response::success_empty_model;
use crate::response::text_response;
use crate::response::text_response_model;
use crate::response::Response;
use crate::response::ResponseModel;
use crate::router::route;
use crate::router::route_spec;
use crate::router::Route;

verus! {

/// An explicit handler failure.
#[derive(Debug, Clone, Copy, PartialEq, Eq)]
pub enum HandlerError {
    /// The identify handler found no client-identification header.
    MissingHeader,
    /// PUT against the file-resource path is not supported.
    UnsupportedMethod,
    /// No base directory was configured for file resources.
    MissingDirectory,
}

/// What a request asks of the connection: answer at once, or perform one
/// file action and then answer.
#[derive(Debug, PartialEq, Eq)]
pub enum Plan {
    /// Write this response.
    Respond(Response),
    /// Read the file at the target path; the response depends on the
    /// outcome.
    FetchFile(Vec<u8>),
    /// Write the contents to the file at the target path, then answer
    /// 201 whatever the outcome.
    StoreFile(Vec<u8>, Vec<u8>),
}

/// The mathematical value of a plan.
pub ghost enum PlanModel {
    Respond(ResponseModel),
    FetchFile(Seq<u8>),
    StoreFile(Seq<u8>, Seq<u8>),
}

impl View for Plan {
    type V = PlanModel;

    open spec fn view(&self) -> PlanModel {
        match self {
            Plan::Respond(r) => PlanModel::Respond(r@),
            Plan::FetchFile(t) => PlanModel::FetchFile(t@),
            Plan::StoreFile(t, c) => PlanModel::StoreFile(t@, c@),
        }
    }
}

/// The view of an optional byte vector.
pub open spec fn opt_bytes(o: Option<Vec<u8>>) -> Option<Seq<u8>> {
    match o {
        Some(v) => Some(v@),
        None => None,
    }
}

/// The body to store: the request body, or nothing when it is absent.
pub open spec fn body_or_empty(b: Option<Seq<u8>>) -> Seq<u8> {
    match b {
        Some(x) => x,
        None => Seq::empty(),
    }
}

/// What the identify handler answers: the value of the last
/// client-identification header as `text/plain`, or the explicit
/// missing-header signal.
pub open spec fn identify_spec(hs: Seq<(Seq<u8>, Seq<u8>)>) -> Result<
    ResponseModel,
    HandlerError,
> {
    match lookup_header(hs, user_agent_key()) {
        Some(v) => Ok(text_response_model(v)),
        None => Err(HandlerError::MissingHeader),
    }
}

/// Answers from the header mapping, by exact case-sensitive lookup.
pub fn identify_response(headers: &Vec<(Vec<u8>, Vec<u8>)>) -> (r: Result<Response, HandlerError>)
    ensures
        ({
            let goal = identify_spec(header_views(headers@));
            match r {
                Ok(resp) => goal == Ok::<ResponseModel, HandlerError>(resp@),
                Err(e) => goal == Err::<ResponseModel, HandlerError>(e),
            }
        }),
{
    let key = user_agent_key_bytes();
    match find_header(headers, key.as_slice()) {
        Some(v) => Ok(text_response(v)),
        None => Err(HandlerError::MissingHeader),
    }
}

/// What the file-resource handler decides from the method, the path
/// suffix after `/files/`, the configured directory and the request
/// body: a fetch for GET, a store of the body for POST, an explicit
/// signal for PUT or for a missing directory.
pub open spec fn file_plan_spec(
    m: Method,
    suffix: Seq<u8>,
    dir: Option<Seq<u8>>,
    body: Option<Seq<u8>>,
) -> Result<PlanModel, HandlerError> {
    match dir {
        None => Err(HandlerError::MissingDirectory),
        Some(d) => match m {
            Method::GET => Ok(PlanModel::FetchFile(d + suffix)),
            Method::POST => Ok(PlanModel::StoreFile(d + suffix, body_or_empty(body))),
            Method::PUT => Err(HandlerError::UnsupportedMethod),
        },
    }
}

/// Decides the file action for one request to the file-resource path.
/// The target is the base directory with the suffix appended verbatim.
pub fn file_plan(
    m: Method,
    suffix: Vec<u8>,
    dir: &Option<Vec<u8>>,
    body: Option<Vec<u8>>,
) -> (r: Result<Plan, HandlerError>)
    ensures
        ({
            let goal = file_plan_spec(m, suffix@, opt_bytes(*dir), opt_bytes(body));
            match r {
                Ok(p) => goal == Ok::<PlanModel, HandlerError>(p@),
                Err(e) => goal == Err::<PlanModel, HandlerError>(e),
            }
        }),
{
    match dir {
        None => Err(HandlerError::MissingDirectory),
        Some(d) => {
            match m {
                Method::PUT => Err(HandlerError::UnsupportedMethod),
                Method::GET => {
                    let mut target = slice_to_vec(d.as_slice());
                    push_all(&mut target, suffix.as_slice());
                    Ok(Plan::FetchFile(target))
                },
                Method::POST => {
                    let mut target = slice_to_vec(d.as_slice());
                    push_all(&mut target, suffix.as_slice());
                    let contents: Vec<u8> = match body {
                        Some(b) => b,
                        None => Vec::new(),
                    };
                    Ok(Plan::StoreFile(target, contents))
                },
            }
        },
    }
}

/// The plan for one parsed request: the routed handler's answer, with
/// every handler failure mapped to the server-error response.
pub open spec fn plan_spec(req: RequestModel, dir: Option<Seq<u8>>) -> PlanModel {
    match route_spec(req.start_line.path) {
        Route::Root => PlanModel::Respond(success_empty_model()),
        Route::Echo => PlanModel::Respond(text_response_model(req.start_line.path.skip(6))),
        Route::Identify => match identify_spec(req.headers) {
            Ok(r) => PlanModel::Respond(r),
            Err(_) => PlanModel::Respond(server_error_model()),
        },
        Route::FileResource => match file_plan_spec(
            req.start_line.method,
            req.start_line.path.skip(7),
            dir,
            req.body,
        ) {
            Ok(p) => p,
            Err(_) => PlanModel::Respond(server_error_model()),
        },
        Route::NotFound => PlanModel::Respond(not_found_model()),
    }
}

/// Routes one parsed request to its handler, first match wins.
pub fn dispatch(req: Request, dir: &Option<Vec<u8>>) -> (p: Plan)
    ensures
        p@ == plan_spec(req@, opt_bytes(*dir)),
{
    let Request { start_line, headers, body } = req;
    match route(start_line.path.as_slice()) {
        Route::Root => Plan::Respond(success_empty()),
        Route::Echo => {
            let n: usize = start_line.path.len();
            let suffix = subvec(start_line.path.as_slice(), 6, n);
            Plan::Respond(text_response(suffix))
        },
        Route::Identify => match identify_response(&headers) {
            Ok(r) => Plan::Respond(r),
            Err(_) => Plan::Respond(server_error_response()),
        },
        Route::FileResource => {
            let n: usize = start_line.path.len();
            let suffix = subvec(start_line.path.as_slice(), 7, n);
            match file_plan(start_line.method, suffix, dir, body) {
                Ok(p) => p,
                Err(_) => Plan::Respond(server_error_response()),
            }
        },
        Route::NotFound => Plan::Respond(not_found_response()),
    }
}

/// The plan for the raw bytes of one read: a parse failure maps to the
/// server-error response, anything parsed goes through the router.
pub open spec fn plan_of_input(s: Seq<u8>, dir: Option<Seq<u8>>) -> PlanModel {
    match parse_request_spec(s) {
        Err(_) => PlanModel::Respond(server_error_model()),
        Ok(q) => plan_spec(q, dir),
    }
}

/// Turns the bytes of one read into the connection's single plan.
pub fn handle_bytes(input: &[u8], dir: &Option<Vec<u8>>) -> (p: Plan)
    ensures
        p@ == plan_of_input(input@, opt_bytes(*dir)),
{
    match Request::parse(input) {
        Err(_) => Plan::Respond(server_error_response()),
        Ok(q) => dispatch(q, dir),
    }
}

/// The response to a fetch outcome: the file's bytes as
/// `application/octet-stream` when the read succeeded, the uniform 404
/// on any failure.
pub open spec fn fetch_response_spec(found: Option<Seq<u8>>) -> ResponseModel {
    match found {
        Some(content) => octet_response_model(content),
        None => not_found_model(),
    }
}

/// Answers for a fetch plan, from the outcome of the file read.
pub fn fetch_response(found: Option<Vec<u8>>) -> (r: Response)
    ensures
        r@ == fetch_response_spec(opt_bytes(found)),
{
    match found {
        Some(content) => octet_response(content),
        None => not_found_response(),
    }
}

/// The single response a plan resolves to, given the fetch outcome
/// (ignored unless the plan is a fetch).
pub open spec fn response_of_plan(p: PlanModel, found: Option<Seq<u8>>) -> ResponseModel {
    match p {
        PlanModel::Respond(r) => r,
        PlanModel::FetchFile(_) => fetch_response_spec(found),
        PlanModel::StoreFile(_, _) => created_model(),
    }
}

/// Resolves a plan to its single response.
pub fn resolve_plan(p: Plan, found: Option<Vec<u8>>) -> (r: Response)
    ensures
        r@ == response_of_plan(p@, opt_bytes(found)),
{
    match p {
        Plan::Respond(r) => r,
        Plan::FetchFile(_) => fetch_response(found),
        Plan::StoreFile(_, _) => created_response(),
    }
}

/// Law: one request, one response. Every input, well-formed or not,
/// resolves for every fetch outcome to a single well-formed response,
/// and only a fetch plan consults the fetch outcome at all.
pub proof fn lemma_one_response(
    s: Seq<u8>,
    dir: Option<Seq<u8>>,
    f1: Option<Seq<u8>>,
    f2: Option<Seq<u8>>,
)
    ensures
        response_of_plan(plan_of_input(s, dir), f1).wf(),
        !(plan_of_input(s, dir) is FetchFile) ==> response_of_plan(plan_of_input(s, dir), f1)
            == response_of_plan(plan_of_input(s, dir), f2),
{
}

/// Law: the root path answers 200 with an empty body, whatever the
/// method, version, headers, body or directory.
pub proof fn lemma_root_any_headers(
    m: Method,
    ver: Seq<u8>,
    hs: Seq<(Seq<u8>, Seq<u8>)>,
    body: Option<Seq<u8>>,
    dir: Option<Seq<u8>>,
)
    ensures
        ({
            let req = RequestModel {
                start_line: StartLineModel { method: m, path: root_path(), version: ver },
                headers: hs,
                body,
            };
            plan_spec(req, dir) == PlanModel::Respond(success_empty_model())
        }),
{
}

/// Law: on the identify route, the value of the last
/// client-identification header comes back verbatim as a `text/plain`
/// body, and a request lacking that header gets the server-error
/// response.
pub proof fn lemma_identify_reflects_header(req: RequestModel, dir: Option<Seq<u8>>)
    requires
        route_spec(req.start_line.path) == Route::Identify,
    ensures
        match lookup_header(req.headers, user_agent_key()) {
            Some(v) => plan_spec(req, dir) == PlanModel::Respond(text_response_model(v)),
            None => plan_spec(req, dir) == PlanModel::Respond(server_error_model()),
        },
{
}

/// Law: a store then a fetch of one file path meet at the same target,
/// and fetching what was stored returns it: the POST plan stores the
/// request body at the resolved target, the GET plan for the same path
/// fetches that very target, and a fetch outcome equal to the stored
/// bytes yields the 200 response carrying exactly those bytes.
pub proof fn lemma_store_then_fetch(
    dir: Seq<u8>,
    path: Seq<u8>,
    body: Seq<u8>,
    hs_post: Seq<(Seq<u8>, Seq<u8>)>,
    hs_get: Seq<(Seq<u8>, Seq<u8>)>,
    ver_post: Seq<u8>,
    ver_get: Seq<u8>,
)
    requires
        route_spec(path) == Route::FileResource,
    ensures
        ({
            let post = RequestModel {
                start_line: StartLineModel { method: Method::POST, path, version: ver_post },
                headers: hs_post,
                body: Some(body),
            };
            let get = RequestModel {
                start_line: StartLineModel { method: Method::GET, path, version: ver_get },
                headers: hs_get,
                body: None,
            };
            plan_spec(post, Some(dir)) == PlanModel::StoreFile(dir + path.skip(7), body)
                && plan_spec(get, Some(dir)) == PlanModel::FetchFile(dir + path.skip(7))
                && response_of_plan(plan_spec(get, Some(dir)), Some(body)) == octet_response_model(
                body,
            )
        }),
{
}

/// Law: a start line of fewer than three space-separated tokens yields
/// the server-error response, whatever else the input holds.
pub proof fn lemma_short_start_line(s: Seq<u8>, dir: Option<Seq<u8>>, f: Option<Seq<u8>>)
    requires
        split_on(split_on(head_of(s), crlf())[0], space_sep()).len() < 3,
    ensures
        plan_of_input(s, dir) == PlanModel::Respond(server_error_model()),
        response_of_plan(plan_of_input(s, dir), f) == server_error_model(),
{
}

} // verus!
