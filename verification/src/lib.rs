//! A minimal HTTP/1.1 request/response library.
//!
//! The library covers the pure part of a tiny single-shot web service:
//! parsing one request from the bytes of a single read, routing it to one
//! of a small set of handlers (root probe, echo, client identification,
//! file resource), and rendering the framed response bytes. All I/O (the
//! socket, the file system, the accept loop) lives outside the library;
//! callers hand in plain byte vectors and carry out the file actions that
//! a plan asks for.

pub mod ascii;
pub mod bytes;
pub mod handler;
pub mod request;
pub mod response;
pub mod router;
pub mod utf8;
