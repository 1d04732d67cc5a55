//! What can go wrong, and what the client is told.

pub mod http;

pub use http::HttpError;
