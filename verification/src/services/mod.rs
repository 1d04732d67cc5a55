//! What the routes of the API take from a request.

pub mod job_service;
