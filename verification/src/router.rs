//! An example handler that routes by path: files under `/files/`, an echo
//! under `/echo/`, a greeting at `/` and the caller's user agent at
//! `/user-agent`. Reading and writing files is left to the caller: the
//! router says which file to read or write and answers what came of it.

use crate::server::protocol::content_type::ContentType;
use crate::server::protocol::method::HttpMethod;
use crate::server::protocol::request::{HttpRequest, RequestView};
use crate::server::protocol::response::{HttpResponse, ResponseView};
use crate::text::chars::{chars_of, same_text, substring};
use crate::text::search::{matches_at, occurs_at};
use vstd::prelude::*;

verus! {

/// What is to be done for a request, in plain text.
pub enum StepView {
    Respond(ResponseView),
    ReadFile { name: Seq<char> },
    WriteFile { name: Seq<char>, content: Seq<char> },
}

/// What is to be done for a request.
pub enum Step {
    /// Answer with this response.
    Respond(HttpResponse),
    /// Read the file of this name and answer with `file_response`.
    ReadFile { name: String },
    /// Write this content to the file of this name and answer with
    /// `created_response`.
    WriteFile { name: String, content: String },
}

impl View for Step {
    type V = StepView;

    open spec fn view(&self) -> StepView {
        match self {
            Step::Respond(response) => StepView::Respond(response@),
            Step::ReadFile { name } => StepView::ReadFile { name: name@ },
            Step::WriteFile { name, content } => StepView::WriteFile {
                name: name@,
                content: content@,
            },
        }
    }
}

/// What came of looking for a file to read.
pub enum FileLookup {
    /// The directory of the files does not exist.
    DirectoryMissing,
    /// The directory holds no file of that name.
    FileMissing,
    /// The file exists and could not be opened.
    OpenFailed,
    /// The file was read; this is its content.
    Content(String),
}

/// `s` begins with `prefix`.
pub open spec fn starts_with(s: Seq<char>, prefix: Seq<char>) -> bool {
    matches_at(s, prefix, 0)
}

/// What follows the first `prefix.len()` characters of `s`.
pub open spec fn after_prefix(s: Seq<char>, prefix: Seq<char>) -> Seq<char> {
    s.subrange(prefix.len() as int, s.len() as int)
}

/// The step that a request calls for. `greeting` is the content served at
/// the root path.
pub open spec fn plan_of(request: RequestView, greeting: Seq<char>) -> StepView {
    if starts_with(request.path, "/files/"@) {
        let name = after_prefix(request.path, "/files/"@);
        match request.method {
            HttpMethod::GET => StepView::ReadFile { name },
            HttpMethod::POST => StepView::WriteFile { name, content: request.body },
        }
    } else if starts_with(request.path, "/echo/"@) {
        StepView::Respond(
            ResponseView {
                status: 200,
                content: after_prefix(request.path, "/echo/"@),
                content_type: ContentType::Json,
            },
        )
    } else if request.path == "/"@ {
        StepView::Respond(
            ResponseView { status: 200, content: greeting, content_type: ContentType::Plain },
        )
    } else if request.path == "/user-agent"@ {
        StepView::Respond(
            ResponseView {
                status: 200,
                content: if request.headers.contains_key("User-Agent"@) {
                    request.headers["User-Agent"@]
                } else {
                    "unknown"@
                },
                content_type: ContentType::Json,
            },
        )
    } else {
        StepView::Respond(
            ResponseView { status: 404, content: "unsupport"@, content_type: ContentType::Json },
        )
    }
}

/// The response to a request for a file, given what came of looking for it.
pub open spec fn file_response_of(lookup: FileLookup) -> ResponseView {
    match lookup {
        FileLookup::DirectoryMissing => ResponseView {
            status: 404,
            content: "dir not found"@,
            content_type: ContentType::Json,
        },
        FileLookup::FileMissing => ResponseView {
            status: 404,
            content: "not found"@,
            content_type: ContentType::Json,
        },
        FileLookup::OpenFailed => ResponseView {
            status: 404,
            content: "not found"@,
            content_type: ContentType::Json,
        },
        FileLookup::Content(content) => ResponseView {
            status: 200,
            content: content@,
            content_type: ContentType::OctetStream,
        },
    }
}

/// What follows `prefix` in `path`, where `path` begins with it.
fn strip_prefix(path: &str, prefix: &str) -> (r: Option<String>)
    ensures
        match r {
            Some(rest) => starts_with(path@, prefix@) && rest@ == after_prefix(path@, prefix@),
            None => !starts_with(path@, prefix@),
        },
{
    let chars = chars_of(path);
    let wanted = chars_of(prefix);
    if occurs_at(chars.as_slice(), wanted.as_slice(), 0) {
        Some(substring(path, wanted.len(), chars.len()))
    } else {
        None
    }
}

/// The step that `request` calls for. `greeting` is the content served at
/// the root path.
pub fn plan(request: &HttpRequest, greeting: &str) -> (step: Step)
    ensures
        step@ == plan_of(request@, greeting@),
{
    let path = request.path.as_str();
    if let Some(name) = strip_prefix(path, "/files/") {
        return match request.method {
            HttpMethod::GET => Step::ReadFile { name },
            HttpMethod::POST => Step::WriteFile { name, content: request.body.clone() },
        };
    }
    if let Some(text) = strip_prefix(path, "/echo/") {
        return Step::Respond(HttpResponse::new(200, text.as_str(), ContentType::Json));
    }
    if same_text(path, "/") {
        return Step::Respond(HttpResponse::new(200, greeting, ContentType::Plain));
    }
    if same_text(path, "/user-agent") {
        return match request.headers.get("User-Agent") {
            Some(agent) => Step::Respond(HttpResponse::new(200, agent.as_str(), ContentType::Json)),
            None => Step::Respond(HttpResponse::new(200, "unknown", ContentType::Json)),
        };
    }
    Step::Respond(HttpResponse::new(404, "unsupport", ContentType::Json))
}

/// The response to a request for a file, given what came of looking for it.
pub fn file_response(lookup: FileLookup) -> (response: HttpResponse)
    ensures
        response@ == file_response_of(lookup),
{
    match lookup {
        FileLookup::DirectoryMissing => HttpResponse::new(404, "dir not found", ContentType::Json),
        FileLookup::FileMissing => HttpResponse::new(404, "not found", ContentType::Json),
        FileLookup::OpenFailed => HttpResponse::new(404, "not found", ContentType::Json),
        FileLookup::Content(content) => HttpResponse::new(
            200,
            content.as_str(),
            ContentType::OctetStream,
        ),
    }
}

/// The response to a request that had a file written.
pub fn created_response() -> (response: HttpResponse)
    ensures
        response@ == (ResponseView {
            status: 201,
            content: "created"@,
            content_type: ContentType::Plain,
        }),
{
    HttpResponse::new(201, "created", ContentType::Plain)
}

} // verus!
