//! Requests and how they are read from text.

use crate::server::protocol::error::HttpError;
use crate::server::protocol::method::{method_of, recognized_method, HttpMethod};
use crate::text::case::uppercase;
use crate::text::chars::{chars_of, substring};
use crate::text::search::{
    find, first_match, has_match, lemma_first_match_unique,
    lemma_split_at_first_match, lemma_split_first_piece, lemma_split_without_match, split,
};
use crate::text::trim::{trim, trim_bounds};
use vstd::hash_map::StringHashMap;
use vstd::prelude::*;

verus! {

/// What a request says: method, path, headers and body as plain text.
pub struct RequestView {
    pub method: HttpMethod,
    pub path: Seq<char>,
    pub headers: Map<Seq<char>, Seq<char>>,
    pub body: Seq<char>,
}

/// One request, read from the text of one connection.
pub struct HttpRequest {
    pub method: HttpMethod,
    pub path: String,
    pub headers: StringHashMap<String>,
    pub body: String,
}

/// The header values of a request as plain text.
pub open spec fn header_texts(headers: Map<Seq<char>, String>) -> Map<Seq<char>, Seq<char>> {
    Map::new(|k: Seq<char>| headers.contains_key(k), |k: Seq<char>| headers[k]@)
}

impl View for HttpRequest {
    type V = RequestView;

    open spec fn view(&self) -> RequestView {
        RequestView {
            method: self.method,
            path: self.path@,
            headers: header_texts(self.headers@),
            body: self.body@,
        }
    }
}

/// The empty line that ends the head of a message.
pub open spec fn head_separator() -> Seq<char> {
    "\r\n\r\n"@
}

/// The line break between the lines of the head.
pub open spec fn line_break() -> Seq<char> {
    "\r\n"@
}

/// The head of a message: what stands before the first empty line.
pub open spec fn head_of(text: Seq<char>) -> Seq<char>
    recommends
        has_match(text, head_separator()),
{
    text.subrange(0, first_match(text, head_separator()))
}

/// The body of a message: all that follows the first empty line.
pub open spec fn body_of(text: Seq<char>) -> Seq<char>
    recommends
        has_match(text, head_separator()),
{
    text.subrange(first_match(text, head_separator()) + head_separator().len(), text.len() as int)
}

/// The header that a line of the head states: the trimmed texts before and
/// after its first colon. A line without a colon states none.
pub open spec fn header_entry(line: Seq<char>) -> Option<(Seq<char>, Seq<char>)> {
    if has_match(line, ":"@) {
        let colon = first_match(line, ":"@);
        Some(
            (
                trim(line.subrange(0, colon)),
                trim(line.subrange(colon + ":"@.len(), line.len() as int)),
            ),
        )
    } else {
        None
    }
}

/// The headers that a run of lines states. Where a key is stated twice, the
/// later line wins.
pub open spec fn headers_of(lines: Seq<Seq<char>>) -> Map<Seq<char>, Seq<char>>
    decreases lines.len(),
{
    if lines.len() == 0 {
        Map::empty()
    } else {
        let earlier = headers_of(lines.drop_last());
        match header_entry(lines.last()) {
            Some((key, value)) => earlier.insert(key, value),
            None => earlier,
        }
    }
}

/// The request line of a message: the first line of its head.
pub open spec fn request_line(text: Seq<char>) -> Seq<char>
    recommends
        has_match(text, head_separator()),
{
    split(head_of(text), line_break())[0]
}

/// The lines of the head that follow the request line.
pub open spec fn header_lines(text: Seq<char>) -> Seq<Seq<char>>
    recommends
        has_match(text, head_separator()),
{
    split(head_of(text), line_break()).drop_first()
}

/// The tokens of the request line: its pieces between single spaces.
pub open spec fn request_tokens(text: Seq<char>) -> Seq<Seq<char>>
    recommends
        has_match(text, head_separator()),
{
    split(request_line(text), " "@)
}

/// The request that a text states, if it states one. The text needs an empty
/// line after its head, and a request line of at least two tokens: the first
/// names the method, the second is the path. The lines after the request
/// line state the headers, and all that follows the empty line is the body.
pub open spec fn parse(text: Seq<char>) -> Option<RequestView> {
    if has_match(text, head_separator()) && request_tokens(text).len() >= 2 {
        Some(
            RequestView {
                method: method_of(request_tokens(text)[0]),
                path: request_tokens(text)[1],
                headers: headers_of(header_lines(text)),
                body: body_of(text),
            },
        )
    } else {
        None
    }
}

/// A text states a request exactly when it holds an empty line and the
/// first line of its head holds a space.
pub proof fn lemma_parse_succeeds_iff(text: Seq<char>)
    ensures
        parse(text) is Some <==> has_match(text, head_separator()) && has_match(
            request_line(text),
            " "@,
        ),
{
    reveal_strlit(" ");
    lemma_split_first_piece(request_line(text), " "@);
}

/// A method token never makes a text unreadable: a text with an empty line
/// after its head and two tokens in its request line states a request,
/// whatever its method token is, and a token that names no method is read as
/// `GET`.
pub proof fn lemma_unknown_method_reads_as_get(text: Seq<char>)
    requires
        has_match(text, head_separator()),
        request_tokens(text).len() >= 2,
    ensures
        parse(text) is Some,
        recognized_method(uppercase(request_tokens(text)[0])) is None ==> parse(text)->0.method
            == HttpMethod::GET,
{
}

/// The header that the line `chars[start..end]` states, if it states one.
fn header_of_line(text: &str, chars: &[char], start: usize, end: usize) -> (r: Option<
    (String, String),
>)
    requires
        chars@ == text@,
        start <= end <= chars.len(),
    ensures
        match r {
            Some((key, value)) => header_entry(chars@.subrange(start as int, end as int)) == Some(
                (key@, value@),
            ),
            None => header_entry(chars@.subrange(start as int, end as int)) is None,
        },
{
    proof {
        reveal_strlit(":");
    }
    let line = &chars[start..end];
    let pattern = chars_of(":");
    match find(line, pattern.as_slice()) {
        None => None,
        Some(colon) => {
            proof {
                lemma_first_match_unique(line@, ":"@, colon as int);
            }
            let before = &line[0..colon];
            let after = &line[colon + 1..line.len()];
            let (ka, kb) = trim_bounds(before);
            let (va, vb) = trim_bounds(after);
            let key = substring(text, start + ka, start + kb);
            let value = substring(text, start + colon + 1 + va, start + colon + 1 + vb);
            Some((key, value))
        },
    }
}

/// The headers that the lines of `chars[start..end]` state.
fn headers_from(text: &str, chars: &[char], start: usize, end: usize) -> (headers: StringHashMap<
    String,
>)
    requires
        chars@ == text@,
        start <= end <= chars.len(),
    ensures
        header_texts(headers@) == headers_of(
            split(chars@.subrange(start as int, end as int), line_break()),
        ),
{
    proof {
        reveal_strlit("\r\n");
    }
    let pattern = chars_of("\r\n");
    let mut headers = StringHashMap::<String>::new();
    let mut pos: usize = start;
    let mut finished: bool = false;
    let ghost all = split(chars@.subrange(start as int, end as int), line_break());
    let ghost mut done: Seq<Seq<char>> = Seq::empty();
    while !finished
        invariant
            chars@ == text@,
            start <= pos <= end <= chars.len(),
            pattern@ == line_break(),
            line_break().len() == 2,
            all == split(chars@.subrange(start as int, end as int), line_break()),
            header_texts(headers@) == headers_of(done),
            finished ==> all == done,
            !finished ==> all == done + split(chars@.subrange(pos as int, end as int), line_break()),
        decreases end - pos + if finished { 0int } else { 1int },
    {
        let region = &chars[pos..end];
        let line_end: usize = match find(region, pattern.as_slice()) {
            Some(i) => {
                proof {
                    lemma_split_at_first_match(region@, line_break(), i as int);
                    assert(region@.subrange(i + 2, region@.len() as int) =~= chars@.subrange(
                        pos + i + 2,
                        end as int,
                    ));
                }
                pos + i
            },
            None => {
                proof {
                    lemma_split_without_match(region@, line_break());
                }
                finished = true;
                end
            },
        };
        let ghost line = chars@.subrange(pos as int, line_end as int);
        assert(line =~= region@.subrange(0, line_end - pos));
        match header_of_line(text, chars, pos, line_end) {
            Some((key, value)) => {
                headers.insert(key, value);
            },
            None => {},
        }
        proof {
            assert(done.push(line).drop_last() =~= done);
            done = done.push(line);
        }
        if !finished {
            pos = line_end + 2;
        }
    }
    headers
}

impl TryFrom<String> for HttpRequest {
    type Error = HttpError;

    /// Reads the request that `request` states. Fails with `InvalidFormat`,
    /// which carries the text, exactly when the text states none.
    fn try_from(request: String) -> (r: Result<HttpRequest, HttpError>)
        ensures
            match r {
                Ok(req) => parse(request@) == Some(req@),
                Err(e) => {
                    &&& parse(request@) is None
                    &&& e matches HttpError::InvalidFormat(text)
                    &&& text@ == request@
                },
            },
    {
        proof {
            reveal_strlit("\r\n\r\n");
            reveal_strlit("\r\n");
            reveal_strlit(" ");
        }
        let chars = chars_of(request.as_str());
        let separator = chars_of("\r\n\r\n");
        let at: usize = match find(chars.as_slice(), separator.as_slice()) {
            Some(i) => i,
            None => {
                return Err(HttpError::InvalidFormat(request));
            },
        };
        proof {
            lemma_first_match_unique(chars@, head_separator(), at as int);
        }
        assert(at + 4 <= chars.len());
        let head = &chars.as_slice()[0..at];
        let ghost lines = split(head@, line_break());
        proof {
            lemma_split_first_piece(head@, line_break());
        }
        let pattern = chars_of("\r\n");
        let line_end: usize;
        let headers: StringHashMap<String>;
        match find(head, pattern.as_slice()) {
            Some(e) => {
                proof {
                    lemma_first_match_unique(head@, line_break(), e as int);
                    lemma_split_at_first_match(head@, line_break(), e as int);
                    assert(head@.subrange(e + 2, head@.len() as int) =~= chars@.subrange(
                        e + 2,
                        at as int,
                    ));
                    assert(lines.drop_first() =~= split(
                        chars@.subrange(e + 2, at as int),
                        line_break(),
                    ));
                }
                line_end = e;
                headers = headers_from(request.as_str(), chars.as_slice(), e + 2, at);
            },
            None => {
                line_end = at;
                headers = StringHashMap::<String>::new();
                proof {
                    assert(header_texts(headers@) =~= headers_of(lines.drop_first()));
                }
            },
        }
        let line = &head[0..line_end];
        assert(line@ == lines[0]);
        let ghost tokens = split(line@, " "@);
        proof {
            lemma_split_first_piece(line@, " "@);
        }
        let space = chars_of(" ");
        let method_end: usize = match find(line, space.as_slice()) {
            Some(i) => i,
            None => {
                return Err(HttpError::InvalidFormat(request));
            },
        };
        proof {
            lemma_first_match_unique(line@, " "@, method_end as int);
        }
        let rest = &line[method_end + 1..line_end];
        proof {
            lemma_split_first_piece(rest@, " "@);
        }
        let path_end: usize = match find(rest, space.as_slice()) {
            Some(j) => {
                proof {
                    lemma_first_match_unique(rest@, " "@, j as int);
                }
                method_end + 1 + j
            },
            None => {
                line_end
            },
        };
        assert(tokens[0] =~= request@.subrange(0, method_end as int));
        assert(tokens[1] =~= request@.subrange(method_end + 1, path_end as int));
        let token = substring(request.as_str(), 0, method_end);
        let path = substring(request.as_str(), method_end + 1, path_end);
        let body = substring(request.as_str(), at + 4, chars.len());
        let method = HttpMethod::from(token.as_str());
        Ok(HttpRequest { method, path, headers, body })
    }
}

/// What `try_from` returns is stated in its own contract, over the view of
/// the request. It is no function of the text as a value: two header maps
/// with the same entries need not be the same value.
impl vstd::std_specs::convert::TryFromSpecImpl<String> for HttpRequest {
    open spec fn obeys_try_from_spec() -> bool {
        false
    }

    open spec fn try_from_spec(request: String) -> Result<HttpRequest, HttpError> {
        arbitrary()
    }
}

} // verus!
