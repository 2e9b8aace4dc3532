//! Request methods.

use crate::text::case::{to_uppercase, uppercase};
use crate::text::chars::same_text;
use vstd::prelude::*;

verus! {

/// The request methods that the server knows.
#[derive(Clone, Copy, Debug, PartialEq, Eq, Structural)]
pub enum HttpMethod {
    GET,
    POST,
}

/// The method that an uppercased token names, if it names one.
pub open spec fn recognized_method(upper: Seq<char>) -> Option<HttpMethod> {
    if upper == "GET"@ {
        Some(HttpMethod::GET)
    } else if upper == "POST"@ {
        Some(HttpMethod::POST)
    } else {
        None
    }
}

/// The method that a token stands for: the one it names when letter case is
/// ignored, and `GET` when it names none.
pub open spec fn method_of(token: Seq<char>) -> HttpMethod {
    match recognized_method(uppercase(token)) {
        Some(m) => m,
        None => HttpMethod::GET,
    }
}

impl HttpMethod {
    /// The method that the uppercased token `upper` names, or `None`.
    pub fn recognize_upper(upper: &str) -> (r: Option<HttpMethod>)
        ensures
            r == recognized_method(upper@),
    {
        if same_text(upper, "GET") {
            Some(HttpMethod::GET)
        } else if same_text(upper, "POST") {
            Some(HttpMethod::POST)
        } else {
            None
        }
    }

    /// The method that `token` names when letter case is ignored, or `None`.
    pub fn recognize(token: &str) -> (r: Option<HttpMethod>)
        ensures
            r == recognized_method(uppercase(token@)),
    {
        let upper = to_uppercase(token);
        HttpMethod::recognize_upper(upper.as_str())
    }
}

impl<'a> From<&'a str> for HttpMethod {
    /// The method that `value` stands for. A token that names no method
    /// stands for `GET`.
    fn from(value: &'a str) -> (r: HttpMethod)
        ensures
            r == method_of(value@),
    {
        match HttpMethod::recognize(value) {
            Some(m) => m,
            None => HttpMethod::GET,
        }
    }
}

impl<'a> vstd::std_specs::convert::FromSpecImpl<&'a str> for HttpMethod {
    open spec fn obeys_from_spec() -> bool {
        true
    }

    open spec fn from_spec(value: &'a str) -> HttpMethod {
        method_of(value@)
    }
}

} // verus!
