//! Responses and their wire form.

use crate::server::protocol::content_type::{mime_of, ContentType};
use crate::server::protocol::error::HttpError;
use crate::text::decimal::{decimal, decimal_string};
use vstd::prelude::*;
use vstd::string::StringExecFns;
use vstd::utf8::encode_utf8;

verus! {

/// The number of bytes that a text takes in UTF-8.
pub open spec fn byte_len(s: Seq<char>) -> nat {
    encode_utf8(s).len()
}

/// What a response says: its status code, its content and the type of the
/// content. The content length is no part of it: it is always the byte length
/// of the content.
pub struct ResponseView {
    pub status: u16,
    pub content: Seq<char>,
    pub content_type: ContentType,
}

/// A response to one request.
pub struct HttpResponse {
    status: u16,
    content: String,
    content_type: ContentType,
    content_length: usize,
}

/// The reason phrase that is written after a status code; `None` for a code
/// that cannot be written.
pub open spec fn reason_of(status: u16) -> Option<Seq<char>> {
    if status == 200 {
        Some("OK"@)
    } else if status == 201 {
        Some("OK"@)
    } else if status == 404 {
        Some("Not Found"@)
    } else {
        None
    }
}

/// The first line of a response, without its line break.
pub open spec fn status_line(status: u16) -> Seq<char>
    recommends
        reason_of(status) is Some,
{
    "HTTP/1.1 "@ + decimal(status as nat) + " "@ + reason_of(status)->0
}

/// The header line that names the content type, without its line break.
pub open spec fn content_type_line(content_type: ContentType) -> Seq<char> {
    "Content-Type: "@ + mime_of(content_type)
}

/// The header line that gives the content length, without its line break.
pub open spec fn content_length_line(length: nat) -> Seq<char> {
    "Content-Length: "@ + decimal(length)
}

/// The head of a response on the wire: status line and the two header lines,
/// separated by line breaks.
pub open spec fn wire_head(r: ResponseView) -> Seq<char>
    recommends
        reason_of(r.status) is Some,
{
    status_line(r.status) + "\r\n"@ + content_type_line(r.content_type) + "\r\n"@
        + content_length_line(byte_len(r.content))
}

/// A response on the wire: the head, an empty line, and the content as it is.
pub open spec fn wire_text(r: ResponseView) -> Seq<char>
    recommends
        reason_of(r.status) is Some,
{
    wire_head(r) + "\r\n\r\n"@ + r.content
}

impl View for HttpResponse {
    type V = ResponseView;

    closed spec fn view(&self) -> ResponseView {
        ResponseView {
            status: self.status,
            content: self.content@,
            content_type: self.content_type,
        }
    }
}

/// The reason phrase for `status`, or `None` for a code that cannot be
/// written.
pub fn reason_phrase(status: u16) -> (r: Option<&'static str>)
    ensures
        match r {
            Some(s) => reason_of(status) == Some(s@),
            None => reason_of(status) is None,
        },
{
    if status == 200 {
        Some("OK")
    } else if status == 201 {
        Some("OK")
    } else if status == 404 {
        Some("Not Found")
    } else {
        None
    }
}

impl HttpResponse {
    #[verifier::type_invariant]
    spec fn length_is_derived(self) -> bool {
        self.content_length == byte_len(self.content@)
    }

    /// A response with the given status, content and content type.
    pub fn new(status: u16, content: &str, content_type: ContentType) -> (r: HttpResponse)
        ensures
            r@ == (ResponseView { status, content: content@, content_type }),
    {
        HttpResponse {
            status,
            content: content.to_owned(),
            content_type,
            content_length: content.as_bytes().len(),
        }
    }

    /// The status code.
    pub fn status(&self) -> (r: u16)
        ensures
            r == self@.status,
    {
        self.status
    }

    /// The content.
    pub fn content(&self) -> (r: &str)
        ensures
            r@ == self@.content,
    {
        self.content.as_str()
    }

    /// The type of the content.
    pub fn content_type(&self) -> (r: ContentType)
        ensures
            r == self@.content_type,
    {
        self.content_type
    }

    /// The length of the content in bytes.
    pub fn content_length(&self) -> (r: usize)
        ensures
            r == byte_len(self@.content),
    {
        proof {
            use_type_invariant(self);
        }
        self.content_length
    }

    /// Replaces the content. The content length follows.
    pub fn set_content(&mut self, content: &str)
        ensures
            final(self)@ == (ResponseView { content: content@, ..old(self)@ }),
    {
        let r = HttpResponse::new(self.status, content, self.content_type);
        *self = r;
    }

    /// The wire form of `res`, or `UnsupportStatus` with the status code in
    /// decimal when the status is none of 200, 201 and 404.
    pub fn response(res: HttpResponse) -> (r: Result<String, HttpError>)
        ensures
            match r {
                Ok(text) => reason_of(res@.status) is Some && text@ == wire_text(res@),
                Err(e) => {
                    &&& reason_of(res@.status) is None
                    &&& e matches HttpError::UnsupportStatus(code)
                    &&& code@ == decimal(res@.status as nat)
                },
            },
    {
        proof {
            use_type_invariant(&res);
        }
        let reason = match reason_phrase(res.status) {
            Some(reason) => reason,
            None => {
                return Err(HttpError::UnsupportStatus(decimal_string(res.status as usize)));
            },
        };
        let mut text = String::from_str("HTTP/1.1 ");
        text.append(decimal_string(res.status as usize).as_str());
        text.append(" ");
        text.append(reason);
        text.append("\r\n");
        text.append("Content-Type: ");
        text.append(res.content_type.mime());
        text.append("\r\n");
        text.append("Content-Length: ");
        text.append(decimal_string(res.content_length).as_str());
        text.append("\r\n\r\n");
        text.append(res.content.as_str());
        Ok(text)
    }
}

} // verus!
