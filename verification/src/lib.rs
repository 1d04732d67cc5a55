//! Administrative core of a job queue kept in Postgres.
//!
//! The crate composes the SQL statements that list, enqueue, complete, fail,
//! reschedule and remove jobs, turns the rows that come back into records, and
//! maps every failure to the body of an HTTP error. It opens no connection and
//! serves no request: the caller runs each statement and hands the row back.

pub mod config;
pub mod errors;
pub mod models;
pub mod repositories;
pub mod services;
pub mod text;
