//! Content types.

use crate::text::case::{to_uppercase, uppercase};
use crate::text::chars::same_text;
use vstd::prelude::*;

verus! {

/// The content types that a response can carry.
#[derive(Clone, Copy, Debug, PartialEq, Eq, Structural)]
pub enum ContentType {
    Plain,
    Json,
    OctetStream,
}

/// The MIME name that a content type is written as.
pub open spec fn mime_of(content_type: ContentType) -> Seq<char> {
    match content_type {
        ContentType::Plain => "text/plain"@,
        ContentType::Json => "text/json"@,
        ContentType::OctetStream => "application/octet-stream"@,
    }
}

/// The content type that an uppercased MIME name stands for, if any.
pub open spec fn recognized_content_type(upper: Seq<char>) -> Option<ContentType> {
    if upper == "TEXT/PLAIN"@ {
        Some(ContentType::Plain)
    } else if upper == "TEXT/JSON"@ {
        Some(ContentType::Json)
    } else if upper == "APPLICATION/OCTET-STREAM"@ {
        Some(ContentType::OctetStream)
    } else {
        None
    }
}

/// The content type that a value stands for: the one whose MIME name it is
/// when letter case is ignored, and `Plain` when it is none.
pub open spec fn content_type_of(value: Seq<char>) -> ContentType {
    match recognized_content_type(uppercase(value)) {
        Some(t) => t,
        None => ContentType::Plain,
    }
}

impl ContentType {
    /// The MIME name of this content type.
    pub fn mime(&self) -> (r: &'static str)
        ensures
            r@ == mime_of(*self),
    {
        match self {
            ContentType::Plain => "text/plain",
            ContentType::Json => "text/json",
            ContentType::OctetStream => "application/octet-stream",
        }
    }

    /// The content type that the uppercased MIME name `upper` stands for, or
    /// `None`.
    pub fn recognize_upper(upper: &str) -> (r: Option<ContentType>)
        ensures
            r == recognized_content_type(upper@),
    {
        if same_text(upper, "TEXT/PLAIN") {
            Some(ContentType::Plain)
        } else if same_text(upper, "TEXT/JSON") {
            Some(ContentType::Json)
        } else if same_text(upper, "APPLICATION/OCTET-STREAM") {
            Some(ContentType::OctetStream)
        } else {
            None
        }
    }

    /// The content type whose MIME name `value` is when letter case is
    /// ignored, or `None`.
    pub fn recognize(value: &str) -> (r: Option<ContentType>)
        ensures
            r == recognized_content_type(uppercase(value@)),
    {
        let upper = to_uppercase(value);
        ContentType::recognize_upper(upper.as_str())
    }
}

impl From<String> for ContentType {
    /// The content type that `value` stands for. A value that is no known
    /// MIME name stands for `Plain`.
    fn from(value: String) -> (r: ContentType)
        ensures
            r == content_type_of(value@),
    {
        match ContentType::recognize(value.as_str()) {
            Some(t) => t,
            None => ContentType::Plain,
        }
    }
}

impl vstd::std_specs::convert::FromSpecImpl<String> for ContentType {
    open spec fn obeys_from_spec() -> bool {
        true
    }

    open spec fn from_spec(value: String) -> ContentType {
        content_type_of(value@)
    }
}

} // verus!
