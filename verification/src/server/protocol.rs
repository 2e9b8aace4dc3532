//! The HTTP/1.1 protocol layer: requests, responses and their errors.

pub mod content_type;
pub mod error;
pub mod method;
pub mod request;
pub mod response;
pub mod round_trip;

pub use content_type::ContentType;
pub use error::HttpError;
pub use method::HttpMethod;
pub use request::HttpRequest;
pub use response::HttpResponse;
