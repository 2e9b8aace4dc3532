//! The server: the protocol layer and what is decided around it.

pub mod connection;
pub mod listener;
pub mod protocol;
