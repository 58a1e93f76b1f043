//! Byte tables for the ASCII literals of the protocol.
//!
//! Each literal comes twice: a spec function giving its mathematical
//! byte sequence, and an executable builder proved to match it.

use vstd::prelude::*;

verus! {

/// The bytes of `"HTTP/1.1 "`.
pub open spec fn http_version_prefix() -> Seq<u8> {
    seq![72u8, 84u8, 84u8, 80u8, 47u8, 49u8, 46u8, 49u8, 32u8]
}

/// The bytes of `"HTTP/1.1 "`, as a vector.
pub fn http_version_prefix_bytes() -> (r: Vec<u8>)
    ensures
        r@ == http_version_prefix(),
{
    let r: Vec<u8> = vec![72u8, 84u8, 84u8, 80u8, 47u8, 49u8, 46u8, 49u8, 32u8];
    proof {
        assert(r@ =~= http_version_prefix());
    }
    r
}

/// The bytes of `"200 OK"`.
pub open spec fn phrase_ok() -> Seq<u8> {
    seq![50u8, 48u8, 48u8, 32u8, 79u8, 75u8]
}

/// The bytes of `"200 OK"`, as a vector.
pub fn phrase_ok_bytes() -> (r: Vec<u8>)
    ensures
        r@ == phrase_ok(),
{
    let r: Vec<u8> = vec![50u8, 48u8, 48u8, 32u8, 79u8, 75u8];
    proof {
        assert(r@ =~= phrase_ok());
    }
    r
}

/// The bytes of `"201 OK"`.
pub open spec fn phrase_created() -> Seq<u8> {
    seq![50u8, 48u8, 49u8, 32u8, 79u8, 75u8]
}

/// The bytes of `"201 OK"`, as a vector.
pub fn phrase_created_bytes() -> (r: Vec<u8>)
    ensures
        r@ == phrase_created(),
{
    let r: Vec<u8> = vec![50u8, 48u8, 49u8, 32u8, 79u8, 75u8];
    proof {
        assert(r@ =~= phrase_created());
    }
    r
}

/// The bytes of `"404 Not Found"`.
pub open spec fn phrase_not_found() -> Seq<u8> {
    seq![52u8, 48u8, 52u8, 32u8, 78u8, 111u8, 116u8, 32u8, 70u8, 111u8, 117u8, 110u8, 100u8]
}

/// The bytes of `"404 Not Found"`, as a vector.
pub fn phrase_not_found_bytes() -> (r: Vec<u8>)
    ensures
        r@ == phrase_not_found(),
{
    let r: Vec<u8> = vec![52u8, 48u8, 52u8, 32u8, 78u8, 111u8, 116u8, 32u8, 70u8, 111u8, 117u8, 110u8, 100u8];
    proof {
        assert(r@ =~= phrase_not_found());
    }
    r
}

/// The bytes of `"500 Internal Server Error"`.
pub open spec fn phrase_server_error() -> Seq<u8> {
    seq![53u8, 48u8, 48u8, 32u8, 73u8, 110u8, 116u8, 101u8, 114u8, 110u8, 97u8, 108u8, 32u8, 83u8, 101u8, 114u8, 118u8, 101u8, 114u8, 32u8, 69u8, 114u8, 114u8, 111u8, 114u8]
}

/// The bytes of `"500 Internal Server Error"`, as a vector.
pub fn phrase_server_error_bytes() -> (r: Vec<u8>)
    ensures
        r@ == phrase_server_error(),
{
    let r: Vec<u8> = vec![53u8, 48u8, 48u8, 32u8, 73u8, 110u8, 116u8, 101u8, 114u8, 110u8, 97u8, 108u8, 32u8, 83u8, 101u8, 114u8, 118u8, 101u8, 114u8, 32u8, 69u8, 114u8, 114u8, 111u8, 114u8];
    proof {
        assert(r@ =~= phrase_server_error());
    }
    r
}

/// The bytes of `"Content-Type: "`.
pub open spec fn content_type_key() -> Seq<u8> {
    seq![67u8, 111u8, 110u8, 116u8, 101u8, 110u8, 116u8, 45u8, 84u8, 121u8, 112u8, 101u8, 58u8, 32u8]
}

/// The bytes of `"Content-Type: "`, as a vector.
pub fn content_type_key_bytes() -> (r: Vec<u8>)
    ensures
        r@ == content_type_key(),
{
    let r: Vec<u8> = vec![67u8, 111u8, 110u8, 116u8, 101u8, 110u8, 116u8, 45u8, 84u8, 121u8, 112u8, 101u8, 58u8, 32u8];
    proof {
        assert(r@ =~= content_type_key());
    }
    r
}

/// The bytes of `"Content-Length: "`.
pub open spec fn content_length_key() -> Seq<u8> {
    seq![67u8, 111u8, 110u8, 116u8, 101u8, 110u8, 116u8, 45u8, 76u8, 101u8, 110u8, 103u8, 116u8, 104u8, 58u8, 32u8]
}

/// The bytes of `"Content-Length: "`, as a vector.
pub fn content_length_key_bytes() -> (r: Vec<u8>)
    ensures
        r@ == content_length_key(),
{
    let r: Vec<u8> = vec![67u8, 111u8, 110u8, 116u8, 101u8, 110u8, 116u8, 45u8, 76u8, 101u8, 110u8, 103u8, 116u8, 104u8, 58u8, 32u8];
    proof {
        assert(r@ =~= content_length_key());
    }
    r
}

/// The bytes of `"text/plain"`.
pub open spec fn media_text_plain() -> Seq<u8> {
    seq![116u8, 101u8, 120u8, 116u8, 47u8, 112u8, 108u8, 97u8, 105u8, 110u8]
}

/// The bytes of `"text/plain"`, as a vector.
pub fn media_text_plain_bytes() -> (r: Vec<u8>)
    ensures
        r@ == media_text_plain(),
{
    let r: Vec<u8> = vec![116u8, 101u8, 120u8, 116u8, 47u8, 112u8, 108u8, 97u8, 105u8, 110u8];
    proof {
        assert(r@ =~= media_text_plain());
    }
    r
}

/// The bytes of `"application/octet-stream"`.
pub open spec fn media_octet_stream() -> Seq<u8> {
    seq![97u8, 112u8, 112u8, 108u8, 105u8, 99u8, 97u8, 116u8, 105u8, 111u8, 110u8, 47u8, 111u8, 99u8, 116u8, 101u8, 116u8, 45u8, 115u8, 116u8, 114u8, 101u8, 97u8, 109u8]
}

/// The bytes of `"application/octet-stream"`, as a vector.
pub fn media_octet_stream_bytes() -> (r: Vec<u8>)
    ensures
        r@ == media_octet_stream(),
{
    let r: Vec<u8> = vec![97u8, 112u8, 112u8, 108u8, 105u8, 99u8, 97u8, 116u8, 105u8, 111u8, 110u8, 47u8, 111u8, 99u8, 116u8, 101u8, 116u8, 45u8, 115u8, 116u8, 114u8, 101u8, 97u8, 109u8];
    proof {
        assert(r@ =~= media_octet_stream());
    }
    r
}

/// The bytes of `"User-Agent"`.
pub open spec fn user_agent_key() -> Seq<u8> {
    seq![85u8, 115u8, 101u8, 114u8, 45u8, 65u8, 103u8, 101u8, 110u8, 116u8]
}

/// The bytes of `"User-Agent"`, as a vector.
pub fn user_agent_key_bytes() -> (r: Vec<u8>)
    ensures
        r@ == user_agent_key(),
{
    let r: Vec<u8> = vec![85u8, 115u8, 101u8, 114u8, 45u8, 65u8, 103u8, 101u8, 110u8, 116u8];
    proof {
        assert(r@ =~= user_agent_key());
    }
    r
}

/// The bytes of `"/"`.
pub open spec fn root_path() -> Seq<u8> {
    seq![47u8]
}

/// The bytes of `"/"`, as a vector.
pub fn root_path_bytes() -> (r: Vec<u8>)
    ensures
        r@ == root_path(),
{
    let r: Vec<u8> = vec![47u8];
    proof {
        assert(r@ =~= root_path());
    }
    r
}

/// The bytes of `"/echo/"`.
pub open spec fn echo_prefix() -> Seq<u8> {
    seq![47u8, 101u8, 99u8, 104u8, 111u8, 47u8]
}

/// The bytes of `"/echo/"`, as a vector.
pub fn echo_prefix_bytes() -> (r: Vec<u8>)
    ensures
        r@ == echo_prefix(),
{
    let r: Vec<u8> = vec![47u8, 101u8, 99u8, 104u8, 111u8, 47u8];
    proof {
        assert(r@ =~= echo_prefix());
    }
    r
}

/// The bytes of `"/user-agent"`.
pub open spec fn user_agent_prefix() -> Seq<u8> {
    seq![47u8, 117u8, 115u8, 101u8, 114u8, 45u8, 97u8, 103u8, 101u8, 110u8, 116u8]
}

/// The bytes of `"/user-agent"`, as a vector.
pub fn user_agent_prefix_bytes() -> (r: Vec<u8>)
    ensures
        r@ == user_agent_prefix(),
{
    let r: Vec<u8> = vec![47u8, 117u8, 115u8, 101u8, 114u8, 45u8, 97u8, 103u8, 101u8, 110u8, 116u8];
    proof {
        assert(r@ =~= user_agent_prefix());
    }
    r
}

/// The bytes of `"/files/"`.
pub open spec fn files_prefix() -> Seq<u8> {
    seq![47u8, 102u8, 105u8, 108u8, 101u8, 115u8, 47u8]
}

/// The bytes of `"/files/"`, as a vector.
pub fn files_prefix_bytes() -> (r: Vec<u8>)
    ensures
        r@ == files_prefix(),
{
    let r: Vec<u8> = vec![47u8, 102u8, 105u8, 108u8, 101u8, 115u8, 47u8];
    proof {
        assert(r@ =~= files_prefix());
    }
    r
}

/// The bytes of `"GET"`.
pub open spec fn method_get() -> Seq<u8> {
    seq![71u8, 69u8, 84u8]
}

/// The bytes of `"GET"`, as a vector.
pub fn method_get_bytes() -> (r: Vec<u8>)
    ensures
        r@ == method_get(),
{
    let r: Vec<u8> = vec![71u8, 69u8, 84u8];
    proof {
        assert(r@ =~= method_get());
    }
    r
}

/// The bytes of `"POST"`.
pub open spec fn method_post() -> Seq<u8> {
    seq![80u8, 79u8, 83u8, 84u8]
}

/// The bytes of `"POST"`, as a vector.
pub fn method_post_bytes() -> (r: Vec<u8>)
    ensures
        r@ == method_post(),
{
    let r: Vec<u8> = vec![80u8, 79u8, 83u8, 84u8];
    proof {
        assert(r@ =~= method_post());
    }
    r
}

/// The bytes of `"PUT"`.
pub open spec fn method_put() -> Seq<u8> {
    seq![80u8, 85u8, 84u8]
}

/// The bytes of `"PUT"`, as a vector.
pub fn method_put_bytes() -> (r: Vec<u8>)
    ensures
        r@ == method_put(),
{
    let r: Vec<u8> = vec![80u8, 85u8, 84u8];
    proof {
        assert(r@ =~= method_put());
    }
    r
}

/// The bytes of the line terminator `"\\r\\n"`.
pub open spec fn crlf() -> Seq<u8> {
    seq![13u8, 10u8]
}

/// The bytes of the line terminator `"\\r\\n"`, as a vector.
pub fn crlf_bytes() -> (r: Vec<u8>)
    ensures
        r@ == crlf(),
{
    let r: Vec<u8> = vec![13u8, 10u8];
    proof {
        assert(r@ =~= crlf());
    }
    r
}

/// The bytes of the blank-line boundary `"\\r\\n\\r\\n"`.
pub open spec fn blank_line() -> Seq<u8> {
    seq![13u8, 10u8, 13u8, 10u8]
}

/// The bytes of the blank-line boundary `"\\r\\n\\r\\n"`, as a vector.
pub fn blank_line_bytes() -> (r: Vec<u8>)
    ensures
        r@ == blank_line(),
{
    let r: Vec<u8> = vec![13u8, 10u8, 13u8, 10u8];
    proof {
        assert(r@ =~= blank_line());
    }
    r
}

/// The bytes of the header separator `": "`.
pub open spec fn header_sep() -> Seq<u8> {
    seq![58u8, 32u8]
}

/// The bytes of the header separator `": "`, as a vector.
pub fn header_sep_bytes() -> (r: Vec<u8>)
    ensures
        r@ == header_sep(),
{
    let r: Vec<u8> = vec![58u8, 32u8];
    proof {
        assert(r@ =~= header_sep());
    }
    r
}

/// The bytes of the token separator `" "`.
pub open spec fn space_sep() -> Seq<u8> {
    seq![32u8]
}

/// The bytes of the token separator `" "`, as a vector.
pub fn space_sep_bytes() -> (r: Vec<u8>)
    ensures
        r@ == space_sep(),
{
    let r: Vec<u8> = vec![32u8];
    proof {
        assert(r@ =~= space_sep());
    }
    r
}

} // verus!
