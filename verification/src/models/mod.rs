//! The records of the job queue.

pub mod job_model;

pub use job_model::{AddJobData, Job, Timestamp};
