//! A job as the queue keeps it, and the data a new job is made from.

use vstd::prelude::*;

verus! {

/// A JSON document. The library carries it from the database to the client
/// and back, and never looks inside.
#[verifier::external_type_specification]
#[verifier::external_body]
pub struct ExJsonValue(serde_json::Value);

/// A point in time: whole seconds since the start of 1970 in UTC, and the
/// nanoseconds that follow them.
#[derive(Clone, Copy, Debug, PartialEq, Eq, Structural)]
pub struct Timestamp {
    pub seconds: i64,
    pub nanoseconds: u32,
}

/// A unit of work in the queue. The database owns it: the library reads it
/// and hands it on.
#[derive(Debug, PartialEq)]
pub struct Job {
    pub id: i64,
    pub queue_name: Option<String>,
    pub task_identifier: String,
    pub payload: serde_json::Value,
    pub priority: i32,
    pub run_at: Timestamp,
    pub attempts: i32,
    pub max_attempts: i32,
    pub last_error: Option<String>,
    pub created_at: Timestamp,
    pub updated_at: Timestamp,
    pub key: Option<String>,
    pub locked_at: Option<Timestamp>,
    pub locked_by: Option<String>,
    pub revision: i32,
    pub flags: Option<serde_json::Value>,
}

/// What a client sends to enqueue a job. Only the task is required.
#[derive(Debug, PartialEq)]
pub struct AddJobData {
    pub task_identifier: String,
    pub payload: Option<serde_json::Value>,
    pub queue_name: Option<String>,
    pub run_at: Option<Timestamp>,
    pub max_attempts: Option<i32>,
    pub job_key: Option<String>,
    pub priority: Option<i32>,
    pub flags: Option<Vec<String>>,
    pub job_key_mode: Option<String>,
}

} // verus!
