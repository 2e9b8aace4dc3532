//! A minimal HTTP/1.1 protocol layer: request parsing from text, response
//! serialization to wire text, and the decisions of the connection handler
//! and the listener loop. Socket I/O is left to the caller.

pub mod router;
pub mod server;
pub mod text;

pub use server::protocol::{HttpError, HttpRequest, HttpResponse};
