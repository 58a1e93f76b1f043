//! The request parser: raw bytes of one read, to a structured request or
//! a parse error.
//!
//! Grammar: the input must be valid UTF-8; the head segment runs to the
//! first blank-line boundary (`"\r\n\r\n"`), or to the end of input,
//! trailing whitespace trimmed, when there is none; head lines are
//! separated by `"\r\n"`; the first line holds exactly three
//! space-separated tokens (method, path, version), the method in the
//! closed set GET/POST/PUT and the path starting with `/`; every further
//! line is a header split at the first `": "`. A GET carries no body
//! whatever follows the boundary; a POST or PUT carries the bytes after
//! the boundary verbatim, and no body when there is no boundary.

use vstd::prelude::*;
use crate::ascii::blank_line_bytes;
use crate::ascii::crlf;
use crate::ascii::crlf_bytes;
use crate::ascii::header_sep;
use crate::ascii::header_sep_bytes;
use crate::ascii::method_get;
use crate::ascii::method_get_bytes;
use crate::ascii::method_post;
use crate::ascii::method_post_bytes;
use crate::ascii::method_put;
use crate::ascii::method_put_bytes;
use crate::ascii::space_sep;
use crate::ascii::space_sep_bytes;
use crate::ascii::blank_line;
use crate::bytes::bytes_eq;
use crate::bytes::find_from;
use crate::bytes::spec_find_at;
use crate::bytes::split_on;
use crate::bytes::split_on_sep;
use crate::bytes::subvec;
use crate::bytes::trim_end_ws;
use crate::bytes::trim_ws_end;
use crate::bytes::views_of;
use crate::utf8::check_utf8;
use crate::utf8::is_utf8;

verus! {

/// The closed set of request methods.
#[derive(Debug, Clone, Copy, PartialEq, Eq)]
pub enum Method {
    GET,
    POST,
    PUT,
}

/// Why a request failed to parse.
#[derive(Debug, Clone, Copy, PartialEq, Eq)]
pub enum ParseError {
    /// The input is not valid UTF-8.
    EncodingError,
    /// The start line does not have three tokens, a known method, and a
    /// path starting with `/`.
    MalformedStartLine,
    /// A head line after the first has no `": "` separator.
    MalformedHeader,
}

/// First line of a request: method, path, protocol version.
#[derive(Debug, PartialEq, Eq)]
pub struct StartLine {
    pub method: Method,
    pub path: Vec<u8>,
    pub version: Vec<u8>,
}

/// The mathematical value of a start line.
pub ghost struct StartLineModel {
    pub method: Method,
    pub path: Seq<u8>,
    pub version: Seq<u8>,
}

impl View for StartLine {
    type V = StartLineModel;

    open spec fn view(&self) -> StartLineModel {
        StartLineModel { method: self.method, path: self.path@, version: self.version@ }
    }
}

/// A parsed request: start line, headers as received, optional body.
#[derive(Debug, PartialEq, Eq)]
pub struct Request {
    pub start_line: StartLine,
    pub headers: Vec<(Vec<u8>, Vec<u8>)>,
    pub body: Option<Vec<u8>>,
}

/// The mathematical value of a request.
pub ghost struct RequestModel {
    pub start_line: StartLineModel,
    pub headers: Seq<(Seq<u8>, Seq<u8>)>,
    pub body: Option<Seq<u8>>,
}

/// The views of a header list.
pub open spec fn header_views(hs: Seq<(Vec<u8>, Vec<u8>)>) -> Seq<(Seq<u8>, Seq<u8>)> {
    hs.map_values(|p: (Vec<u8>, Vec<u8>)| (p.0@, p.1@))
}

impl View for Request {
    type V = RequestModel;

    open spec fn view(&self) -> RequestModel {
        RequestModel {
            start_line: self.start_line@,
            headers: header_views(self.headers@),
            body: match self.body {
                Some(b) => Some(b@),
                None => None,
            },
        }
    }
}

/// The method that a start-line token names, if any.
pub open spec fn method_of(tok: Seq<u8>) -> Option<Method> {
    if tok == method_get() {
        Some(Method::GET)
    } else if tok == method_post() {
        Some(Method::POST)
    } else if tok == method_put() {
        Some(Method::PUT)
    } else {
        None
    }
}

impl Method {
    /// Parses a method token from the closed set GET/POST/PUT.
    pub fn parse(tok: &[u8]) -> (r: Result<Method, ParseError>)
        ensures
            match r {
                Ok(m) => method_of(tok@) == Some(m),
                Err(e) => method_of(tok@) == None::<Method> && e == ParseError::MalformedStartLine,
            },
    {
        let get = method_get_bytes();
        let post = method_post_bytes();
        let put = method_put_bytes();
        if bytes_eq(tok, get.as_slice()) {
            Ok(Method::GET)
        } else if bytes_eq(tok, post.as_slice()) {
            Ok(Method::POST)
        } else if bytes_eq(tok, put.as_slice()) {
            Ok(Method::PUT)
        } else {
            Err(ParseError::MalformedStartLine)
        }
    }
}

/// What parsing a start line yields: exactly three space-separated
/// tokens, a known method, and a path beginning with `/`.
pub open spec fn parse_start_line_spec(line: Seq<u8>) -> Result<StartLineModel, ParseError> {
    let toks = split_on(line, space_sep());
    if toks.len() != 3 {
        Err(ParseError::MalformedStartLine)
    } else {
        match method_of(toks[0]) {
            None => Err(ParseError::MalformedStartLine),
            Some(m) => {
                if toks[1].len() == 0 || toks[1][0] != 47 {
                    Err(ParseError::MalformedStartLine)
                } else {
                    Ok(StartLineModel { method: m, path: toks[1], version: toks[2] })
                }
            },
        }
    }
}

/// The model of a start-line parse result.
pub open spec fn start_line_result_model(r: Result<StartLine, ParseError>) -> Result<
    StartLineModel,
    ParseError,
> {
    match r {
        Ok(sl) => Ok(sl@),
        Err(e) => Err(e),
    }
}

impl StartLine {
    /// Parses the first line of the head segment.
    pub fn parse(line: &[u8]) -> (r: Result<StartLine, ParseError>)
        ensures
            start_line_result_model(r) == parse_start_line_spec(line@),
    {
        let sep = space_sep_bytes();
        let mut toks = split_on_sep(line, sep.as_slice());
        let ghost tv = views_of(toks@);
        if toks.len() != 3 {
            return Err(ParseError::MalformedStartLine);
        }
        let version = toks.pop().unwrap();
        let path = toks.pop().unwrap();
        let mtok = toks.pop().unwrap();
        proof {
            assert(tv[0] == mtok@);
            assert(tv[1] == path@);
            assert(tv[2] == version@);
        }
        match Method::parse(mtok.as_slice()) {
            Err(e) => Err(e),
            Ok(m) => {
                if path.len() == 0 || path[0] != 47 {
                    Err(ParseError::MalformedStartLine)
                } else {
                    Ok(StartLine { method: m, path, version })
                }
            },
        }
    }
}

/// What parsing one header line yields: the bytes before and after the
/// first `": "`.
pub open spec fn parse_header_line_spec(line: Seq<u8>) -> Result<(Seq<u8>, Seq<u8>), ParseError> {
    let i = spec_find_at(line, header_sep(), 0);
    if i < 0 {
        Err(ParseError::MalformedHeader)
    } else {
        Ok((line.subrange(0, i), line.subrange(i + 2, line.len() as int)))
    }
}

/// The model of a header-line parse result.
pub open spec fn header_pair_result_model(r: Result<(Vec<u8>, Vec<u8>), ParseError>) -> Result<
    (Seq<u8>, Seq<u8>),
    ParseError,
> {
    match r {
        Ok(kv) => Ok((kv.0@, kv.1@)),
        Err(e) => Err(e),
    }
}

/// Parses one header line at the first `": "`.
pub fn parse_header_line(line: &[u8]) -> (r: Result<(Vec<u8>, Vec<u8>), ParseError>)
    ensures
        header_pair_result_model(r) == parse_header_line_spec(line@),
{
    let sep = header_sep_bytes();
    match find_from(line, sep.as_slice(), 0) {
        None => Err(ParseError::MalformedHeader),
        Some(i) => {
            let n: usize = line.len();
            let key = subvec(line, 0, i);
            let value = subvec(line, i + 2, n);
            Ok((key, value))
        },
    }
}

/// What parsing a list of header lines yields: each line split at its
/// first `": "`, in order, or the first failure.
pub open spec fn parse_headers_spec(lines: Seq<Seq<u8>>) -> Result<
    Seq<(Seq<u8>, Seq<u8>)>,
    ParseError,
>
    decreases lines.len(),
{
    if lines.len() == 0 {
        Ok(Seq::empty())
    } else {
        match parse_header_line_spec(lines[0]) {
            Err(e) => Err(e),
            Ok(kv) => match parse_headers_spec(lines.skip(1)) {
                Err(e) => Err(e),
                Ok(t) => Ok(seq![kv] + t),
            },
        }
    }
}

/// The model of a header-list parse result.
pub open spec fn headers_result_model(r: Result<Vec<(Vec<u8>, Vec<u8>)>, ParseError>) -> Result<
    Seq<(Seq<u8>, Seq<u8>)>,
    ParseError,
> {
    match r {
        Ok(hs) => Ok(header_views(hs@)),
        Err(e) => Err(e),
    }
}

/// Parses the header lines from index `i` on.
pub fn parse_header_lines(lines: &Vec<Vec<u8>>, i: usize) -> (r: Result<
    Vec<(Vec<u8>, Vec<u8>)>,
    ParseError,
>)
    requires
        i <= lines@.len(),
    ensures
        headers_result_model(r) == parse_headers_spec(views_of(lines@).skip(i as int)),
    decreases lines@.len() - i,
{
    let ghost ls = views_of(lines@).skip(i as int);
    if i == lines.len() {
        let v: Vec<(Vec<u8>, Vec<u8>)> = Vec::new();
        proof {
            assert(ls =~= Seq::<Seq<u8>>::empty());
            assert(header_views(v@) =~= Seq::<(Seq<u8>, Seq<u8>)>::empty());
        }
        Ok(v)
    } else {
        proof {
            assert(ls[0] == lines@[i as int]@);
        }
        match parse_header_line(lines[i].as_slice()) {
            Err(e) => Err(e),
            Ok(kv) => {
                proof {
                    assert(ls.skip(1) =~= views_of(lines@).skip(i as int + 1));
                }
                match parse_header_lines(lines, i + 1) {
                    Err(e) => Err(e),
                    Ok(mut t) => {
                        let ghost tview = header_views(t@);
                        let mut v: Vec<(Vec<u8>, Vec<u8>)> = Vec::new();
                        v.push(kv);
                        v.append(&mut t);
                        proof {
                            assert(header_views(v@) =~= seq![(kv.0@, kv.1@)] + tview);
                        }
                        Ok(v)
                    },
                }
            },
        }
    }
}

/// The value of the last header with the given key, if any; a later
/// duplicate shadows an earlier one, as insertion into a map would.
pub open spec fn lookup_header(hs: Seq<(Seq<u8>, Seq<u8>)>, key: Seq<u8>) -> Option<Seq<u8>>
    decreases hs.len(),
{
    if hs.len() == 0 {
        None
    } else if hs.last().0 == key {
        Some(hs.last().1)
    } else {
        lookup_header(hs.drop_last(), key)
    }
}

/// Looks up the last header with the given key.
pub fn find_header(headers: &Vec<(Vec<u8>, Vec<u8>)>, key: &[u8]) -> (r: Option<Vec<u8>>)
    ensures
        match r {
            Some(v) => lookup_header(header_views(headers@), key@) == Some(v@),
            None => lookup_header(header_views(headers@), key@) == None::<Seq<u8>>,
        },
{
    let ghost hv = header_views(headers@);
    proof {
        assert(hv.take(headers@.len() as int) =~= hv);
    }
    let mut i: usize = headers.len();
    while i > 0
        invariant
            i <= headers@.len(),
            hv == header_views(headers@),
            lookup_header(hv, key@) == lookup_header(hv.take(i as int), key@),
        decreases i,
    {
        proof {
            assert(hv.take(i as int).last() == hv[i - 1]);
            assert(hv.take(i as int).drop_last() =~= hv.take(i - 1));
        }
        let pair = &headers[i - 1];
        if bytes_eq(pair.0.as_slice(), key) {
            let n: usize = pair.1.len();
            return Some(subvec(pair.1.as_slice(), 0, n));
        }
        i -= 1;
    }
    proof {
        assert(hv.take(0) =~= Seq::<(Seq<u8>, Seq<u8>)>::empty());
    }
    None
}

/// The index of the blank-line boundary in the raw input, or `-1`.
pub open spec fn head_boundary(s: Seq<u8>) -> int {
    spec_find_at(s, blank_line(), 0)
}

/// The head segment: up to the boundary, or the whole input with
/// trailing whitespace trimmed when there is no boundary.
pub open spec fn head_of(s: Seq<u8>) -> Seq<u8> {
    if head_boundary(s) < 0 {
        trim_ws_end(s)
    } else {
        s.subrange(0, head_boundary(s))
    }
}

/// The bytes after the boundary, when there is one.
pub open spec fn body_segment(s: Seq<u8>) -> Option<Seq<u8>> {
    if head_boundary(s) < 0 {
        None
    } else {
        Some(s.subrange(head_boundary(s) + 4, s.len() as int))
    }
}

/// What parsing a whole request yields.
pub open spec fn parse_request_spec(s: Seq<u8>) -> Result<RequestModel, ParseError> {
    if !is_utf8(s) {
        Err(ParseError::EncodingError)
    } else {
        let lines = split_on(head_of(s), crlf());
        if lines.len() == 0 {
            Err(ParseError::MalformedStartLine)
        } else {
            match parse_start_line_spec(lines[0]) {
                Err(e) => Err(e),
                Ok(sl) => match parse_headers_spec(lines.skip(1)) {
                    Err(e) => Err(e),
                    Ok(hs) => {
                        let body = if sl.method == Method::GET {
                            None
                        } else {
                            body_segment(s)
                        };
                        Ok(RequestModel { start_line: sl, headers: hs, body })
                    },
                },
            }
        }
    }
}

/// The model of a request parse result.
pub open spec fn request_result_model(r: Result<Request, ParseError>) -> Result<
    RequestModel,
    ParseError,
> {
    match r {
        Ok(q) => Ok(q@),
        Err(e) => Err(e),
    }
}

impl Request {
    /// Parses the bytes of one read into a request, or says why not.
    pub fn parse(input: &[u8]) -> (r: Result<Request, ParseError>)
        ensures
            request_result_model(r) == parse_request_spec(input@),
    {
        if !check_utf8(input) {
            return Err(ParseError::EncodingError);
        }
        let blank = blank_line_bytes();
        let n: usize = input.len();
        let head: Vec<u8>;
        let bodyseg: Option<Vec<u8>>;
        match find_from(input, blank.as_slice(), 0) {
            Some(k) => {
                head = subvec(input, 0, k);
                bodyseg = Some(subvec(input, k + 4, n));
            },
            None => {
                head = trim_end_ws(input);
                bodyseg = None;
            },
        }
        proof {
            assert(head@ == head_of(input@));
        }
        let lf = crlf_bytes();
        let lines = split_on_sep(head.as_slice(), lf.as_slice());
        let ghost lview = views_of(lines@);
        if lines.len() == 0 {
            return Err(ParseError::MalformedStartLine);
        }
        proof {
            assert(lview[0] == lines@[0]@);
        }
        let sl = match StartLine::parse(lines[0].as_slice()) {
            Err(e) => { return Err(e) },
            Ok(sl) => sl,
        };
        let hs = match parse_header_lines(&lines, 1) {
            Err(e) => { return Err(e) },
            Ok(h) => h,
        };
        let body: Option<Vec<u8>> = match sl.method {
            Method::GET => None,
            _ => bodyseg,
        };
        Ok(Request { start_line: sl, headers: hs, body })
    }
}

} // verus!
