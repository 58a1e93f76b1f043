//! The router: which handler a path goes to.
//!
//! An ordered rule list, first match wins: the exact path `/` goes to the
//! root handler; a path starting with `/echo/` to the echo handler; one
//! starting with `/user-agent` to the identify handler; one starting with
//! `/files/` to the file-resource handler; everything else is not found.

use vstd::prelude::*;
use crate::ascii::echo_prefix;
use crate::ascii::echo_prefix_bytes;
use crate::ascii::files_prefix;
use crate::ascii::files_prefix_bytes;
use crate::ascii::root_path;
use crate::ascii::root_path_bytes;
use crate::ascii::user_agent_prefix;
use crate::ascii::user_agent_prefix_bytes;
use crate::bytes::bytes_eq;
use crate::bytes::is_prefix_of;
use crate::bytes::starts_with;

verus! {

/// The handler a request goes to.
#[derive(Debug, Clone, Copy, PartialEq, Eq)]
pub enum Route {
    Root,
    Echo,
    Identify,
    FileResource,
    NotFound,
}

/// The first matching rule for a path.
pub open spec fn route_spec(path: Seq<u8>) -> Route {
    if path == root_path() {
        Route::Root
    } else if is_prefix_of(echo_prefix(), path) {
        Route::Echo
    } else if is_prefix_of(user_agent_prefix(), path) {
        Route::Identify
    } else if is_prefix_of(files_prefix(), path) {
        Route::FileResource
    } else {
        Route::NotFound
    }
}

/// Selects the handler for a path, first match wins.
pub fn route(path: &[u8]) -> (r: Route)
    ensures
        r == route_spec(path@),
{
    let root = root_path_bytes();
    let echo = echo_prefix_bytes();
    let agent = user_agent_prefix_bytes();
    let files = files_prefix_bytes();
    if bytes_eq(path, root.as_slice()) {
        Route::Root
    } else if starts_with(path, echo.as_slice()) {
        Route::Echo
    } else if starts_with(path, agent.as_slice()) {
        Route::Identify
    } else if starts_with(path, files.as_slice()) {
        Route::FileResource
    } else {
        Route::NotFound
    }
}

} // verus!
