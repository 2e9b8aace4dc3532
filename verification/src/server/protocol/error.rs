//! What can go wrong while one connection is served.

use vstd::prelude::*;
use vstd::string::StringExecFns;

verus! {

/// The error type of the standard library's I/O operations. Its contents are
/// not read here: a value of it is only carried.
#[verifier::external_type_specification]
#[verifier::external_body]
pub struct ExIoError(std::io::Error);

/// The error that the standard library reports for bytes that are not UTF-8.
/// Its contents are not read here: a value of it is only carried.
#[verifier::external_type_specification]
#[verifier::external_body]
pub struct ExFromUtf8Error(std::string::FromUtf8Error);

/// The failures of serving one connection.
#[derive(Debug)]
pub enum HttpError {
    /// The request text is malformed; carries the text.
    InvalidFormat(String),
    /// A response has a status code that cannot be written; carries the code.
    UnsupportStatus(String),
    /// A content type that cannot be written; carries its name.
    UnsupportContentType(String),
    /// Reading or writing failed.
    IoError(std::io::Error),
    /// The received bytes are not valid UTF-8.
    FromUtf8Error(std::string::FromUtf8Error),
    /// The request handler failed; carries its account of the failure.
    HttpHandleError(String),
}

/// The text that describes an error.
pub open spec fn message_of(e: HttpError) -> Seq<char> {
    match e {
        HttpError::InvalidFormat(s) => "Invalid request format: "@ + s@ + "."@,
        HttpError::UnsupportStatus(s) => "Can't handle status code: "@ + s@ + "."@,
        HttpError::UnsupportContentType(s) => "Can't handle content type: "@ + s@ + "."@,
        HttpError::IoError(_) => "io exception."@,
        HttpError::FromUtf8Error(_) => "FromUtf8Error exception."@,
        HttpError::HttpHandleError(s) => "Handle http: "@ + s@ + "."@,
    }
}

/// `prefix`, then `detail`, then a full stop.
fn sentence(prefix: &str, detail: &str) -> (r: String)
    ensures
        r@ == prefix@ + detail@ + "."@,
{
    let mut r = String::from_str(prefix);
    r.append(detail);
    r.append(".");
    r
}

impl HttpError {
    /// The text that describes this error.
    pub fn message(&self) -> (r: String)
        ensures
            r@ == message_of(*self),
    {
        match self {
            HttpError::InvalidFormat(s) => sentence("Invalid request format: ", s.as_str()),
            HttpError::UnsupportStatus(s) => sentence("Can't handle status code: ", s.as_str()),
            HttpError::UnsupportContentType(s) => sentence(
                "Can't handle content type: ",
                s.as_str(),
            ),
            HttpError::IoError(_) => String::from_str("io exception."),
            HttpError::FromUtf8Error(_) => String::from_str("FromUtf8Error exception."),
            HttpError::HttpHandleError(s) => sentence("Handle http: ", s.as_str()),
        }
    }
}

impl From<std::io::Error> for HttpError {
    fn from(e: std::io::Error) -> (r: HttpError)
    {
        HttpError::IoError(e)
    }
}

impl vstd::std_specs::convert::FromSpecImpl<std::io::Error> for HttpError {
    open spec fn obeys_from_spec() -> bool {
        true
    }

    open spec fn from_spec(e: std::io::Error) -> HttpError {
        HttpError::IoError(e)
    }
}

impl From<std::string::FromUtf8Error> for HttpError {
    fn from(e: std::string::FromUtf8Error) -> (r: HttpError)
    {
        HttpError::FromUtf8Error(e)
    }
}

impl vstd::std_specs::convert::FromSpecImpl<std::string::FromUtf8Error> for HttpError {
    open spec fn obeys_from_spec() -> bool {
        true
    }

    open spec fn from_spec(e: std::string::FromUtf8Error) -> HttpError {
        HttpError::FromUtf8Error(e)
    }
}

} // verus!
