//! The bodies of the requests that change jobs, and the query that each one
//! asks for.

use crate::config::Schema;
use crate::repositories::job_repository::{
    complete_jobs, complete_jobs_statement, permanently_fail_jobs,
    permanently_fail_jobs_statement, remove_job, remove_job_statement,
};
use crate::repositories::query::{ArgumentView, Query};
use vstd::prelude::*;

verus! {

/// The body of a request to complete jobs.
#[derive(Clone, Debug, PartialEq)]
pub struct CompleteJobBody {
    pub job_ids: Vec<i64>,
}

impl CompleteJobBody {
    /// The query that completes the jobs of the body.
    pub fn query(self, schema: &Schema) -> (query: Query)
        ensures
            query.statement@ == complete_jobs_statement(schema@),
            query.arguments.deep_view() == seq![ArgumentView::BigintList(self.job_ids@)],
    {
        complete_jobs(schema, self.job_ids)
    }
}

/// The body of a request to make jobs fail for good. The one message goes
/// with every job.
#[derive(Clone, Debug, PartialEq)]
pub struct PermanentlyFailJobsBody {
    pub job_ids: Vec<i64>,
    pub error_messages: String,
}

impl PermanentlyFailJobsBody {
    /// The query that makes the jobs of the body fail.
    pub fn query(self, schema: &Schema) -> (query: Query)
        ensures
            query.statement@ == permanently_fail_jobs_statement(schema@),
            query.arguments.deep_view() == seq![
                ArgumentView::BigintList(self.job_ids@),
                ArgumentView::Text(Some(self.error_messages@)),
            ],
    {
        permanently_fail_jobs(schema, self.job_ids, self.error_messages)
    }
}

/// The body of a request to remove a job.
#[derive(Clone, Debug, PartialEq)]
pub struct RemoveJobBody {
    pub job_key: String,
}

impl RemoveJobBody {
    /// The query that removes the job of the body.
    pub fn query(self, schema: &Schema) -> (query: Query)
        ensures
            query.statement@ == remove_job_statement(schema@),
            query.arguments.deep_view() == seq![ArgumentView::Text(Some(self.job_key@))],
    {
        remove_job(schema, self.job_key)
    }
}

} // verus!
