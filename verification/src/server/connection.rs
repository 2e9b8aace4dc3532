//! What happens to the bytes of one connection between reading them and
//! writing the answer.

use crate::server::protocol::error::{message_of, HttpError};
use crate::server::protocol::request::{parse, HttpRequest};
use crate::server::protocol::response::{reason_of, wire_text, HttpResponse};
use crate::text::decimal::decimal;
use vstd::prelude::*;
use vstd::slice::slice_to_vec;
use vstd::utf8::{decode_utf8, encode_utf8_decode_utf8, valid_utf8};

verus! {

/// The number of bytes that one read takes from a connection.
pub const BUFFER_SIZE: usize = 1024;

/// `i` is where the text in a buffer ends: at its first zero byte, or at the
/// end of the buffer when it holds none.
pub open spec fn is_text_end(bytes: Seq<u8>, i: int) -> bool {
    &&& 0 <= i <= bytes.len()
    &&& forall|j: int| 0 <= j < i ==> bytes[j] != 0
    &&& i < bytes.len() ==> bytes[i] == 0
}

/// The bytes of a buffer that are text: those before its first zero byte.
pub open spec fn text_bytes(bytes: Seq<u8>) -> Seq<u8> {
    bytes.subrange(0, choose|i: int| is_text_end(bytes, i))
}

/// Whether reading a buffer gives `r`: the text before the first zero byte,
/// decoded, or `FromUtf8Error` when that is not valid UTF-8.
pub open spec fn is_text_of(bytes: Seq<u8>, r: Result<String, HttpError>) -> bool {
    match r {
        Ok(text) => valid_utf8(text_bytes(bytes)) && text@ == decode_utf8(text_bytes(bytes)),
        Err(e) => !valid_utf8(text_bytes(bytes)) && e is FromUtf8Error,
    }
}

/// Whether reading a request from a buffer gives `r`: the request that the
/// text states, `FromUtf8Error` for text that is not valid UTF-8, or
/// `InvalidFormat` with the text when it states no request.
pub open spec fn is_request_of(bytes: Seq<u8>, r: Result<HttpRequest, HttpError>) -> bool {
    match r {
        Ok(request) => {
            &&& valid_utf8(text_bytes(bytes))
            &&& parse(decode_utf8(text_bytes(bytes))) == Some(request@)
        },
        Err(e) => {
            ||| !valid_utf8(text_bytes(bytes)) && e is FromUtf8Error
            ||| {
                &&& valid_utf8(text_bytes(bytes))
                &&& parse(decode_utf8(text_bytes(bytes))) is None
                &&& e matches HttpError::InvalidFormat(text)
                &&& text@ == decode_utf8(text_bytes(bytes))
            }
        },
    }
}

/// What a failure of the handler is reported as: its own account when it is
/// a `HttpHandleError` already, and else the text that describes it.
pub open spec fn handler_failure(e: HttpError) -> Seq<char> {
    match e {
        HttpError::HttpHandleError(s) => s@,
        _ => message_of(e),
    }
}

/// Whether `r` answers the outcome of the handler: the wire form of its
/// response, `UnsupportStatus` for a response whose status cannot be
/// written, and `HttpHandleError` for a failure of the handler.
pub open spec fn is_reply_to(
    outcome: Result<HttpResponse, HttpError>,
    r: Result<String, HttpError>,
) -> bool {
    match outcome {
        Ok(response) => match r {
            Ok(text) => reason_of(response@.status) is Some && text@ == wire_text(response@),
            Err(e) => {
                &&& reason_of(response@.status) is None
                &&& e matches HttpError::UnsupportStatus(code)
                &&& code@ == decimal(response@.status as nat)
            },
        },
        Err(failure) => {
            &&& r matches Err(e)
            &&& e matches HttpError::HttpHandleError(s)
            &&& s@ == handler_failure(failure)
        },
    }
}

/// The text end of a buffer is unique.
proof fn lemma_text_end_unique(bytes: Seq<u8>, i: int)
    requires
        is_text_end(bytes, i),
    ensures
        text_bytes(bytes) == bytes.subrange(0, i),
{
    let k = choose|k: int| is_text_end(bytes, k);
    if k < i {
        assert(bytes[k] == 0);
    } else if i < k {
        assert(bytes[i] == 0);
    }
}

/// The index of the first zero byte of `buf`, or its length when it holds
/// none.
pub fn text_end(buf: &[u8]) -> (i: usize)
    ensures
        is_text_end(buf@, i as int),
{
    let n: usize = buf.len();
    let mut i: usize = 0;
    while i < n && buf[i] != 0
        invariant
            n == buf.len(),
            i <= n,
            forall|j: int| 0 <= j < i ==> buf@[j] != 0,
        decreases n - i,
    {
        i += 1;
    }
    i
}

/// The text that a buffer holds: its bytes before the first zero byte,
/// decoded as UTF-8.
pub fn request_text(buf: &[u8]) -> (r: Result<String, HttpError>)
    ensures
        is_text_of(buf@, r),
{
    let end = text_end(buf);
    proof {
        lemma_text_end_unique(buf@, end as int);
    }
    let bytes = slice_to_vec(&buf[0..end]);
    match String::from_utf8(bytes) {
        Ok(text) => {
            proof {
                encode_utf8_decode_utf8(text@);
            }
            Ok(text)
        },
        Err(e) => Err(HttpError::FromUtf8Error(e)),
    }
}

/// The request that a buffer holds.
pub fn read_request(buf: &[u8]) -> (r: Result<HttpRequest, HttpError>)
    ensures
        is_request_of(buf@, r),
{
    match request_text(buf) {
        Ok(text) => HttpRequest::try_from(text),
        Err(e) => Err(e),
    }
}

/// The answer to what the handler returned: the wire form of its response,
/// or the error that ends the connection.
pub fn reply(outcome: Result<HttpResponse, HttpError>) -> (r: Result<String, HttpError>)
    ensures
        is_reply_to(outcome, r),
{
    match outcome {
        Ok(response) => HttpResponse::response(response),
        Err(HttpError::HttpHandleError(s)) => Err(HttpError::HttpHandleError(s)),
        Err(failure) => Err(HttpError::HttpHandleError(failure.message())),
    }
}

/// Serves the request in `buf` with `handler`: reads the request, hands it
/// to the handler, and answers what the handler returned. Where no request
/// can be read, the handler is not called.
pub fn serve<F: Fn(&HttpRequest) -> Result<HttpResponse, HttpError>>(buf: &[u8], handler: F) -> (r:
    Result<String, HttpError>)
    requires
        forall|request: &HttpRequest| call_requires(handler, (request,)),
    ensures
        exists|read: Result<HttpRequest, HttpError>|
            {
                &&& is_request_of(buf@, read)
                &&& match read {
                    Ok(request) => exists|outcome: Result<HttpResponse, HttpError>|
                        {
                            &&& call_ensures(handler, (&request,), outcome)
                            &&& is_reply_to(outcome, r)
                        },
                    Err(e) => r == Err::<String, HttpError>(e),
                }
            },
{
    let read = read_request(buf);
    match read {
        Ok(request) => {
            let outcome = handler(&request);
            let r = reply(outcome);
            r
        },
        Err(e) => {
            Err(e)
        },
    }
}

} // verus!
