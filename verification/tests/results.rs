use graphboard::models::{Job, Timestamp};
use graphboard::repositories::{
    CompleteJobsResult, PermanentlyFailJobsResult, RemoveJobResult, RescheduleJobsResult,
};
use serde_json::Value;

fn job(id: i64) -> Job {
    Job {
        id,
        queue_name: None,
        task_identifier: "send_email".to_string(),
        payload: Value::Null,
        priority: 0,
        run_at: Timestamp { seconds: 1_650_000_000, nanoseconds: 0 },
        attempts: 0,
        max_attempts: 25,
        last_error: None,
        created_at: Timestamp { seconds: 1_650_000_000, nanoseconds: 0 },
        updated_at: Timestamp { seconds: 1_650_000_000, nanoseconds: 0 },
        key: Some("key".to_string()),
        locked_at: None,
        locked_by: None,
        revision: 1,
        flags: None,
    }
}

#[test]
fn completing_nothing_gives_an_empty_list() {
    assert_eq!(CompleteJobsResult::from_jobs(None).completed_jobs, vec![]);
    assert_eq!(CompleteJobsResult::from_jobs(Some(vec![])).completed_jobs, vec![]);
}

#[test]
fn completed_jobs_are_kept_in_order() {
    let result = CompleteJobsResult::from_jobs(Some(vec![job(2), job(1), job(3)]));
    assert_eq!(result.completed_jobs, vec![job(2), job(1), job(3)]);
}

#[test]
fn failing_nothing_gives_an_empty_list() {
    assert_eq!(PermanentlyFailJobsResult::from_jobs(None).permanently_failed_jobs, vec![]);
}

#[test]
fn failed_jobs_are_kept_in_order() {
    let result = PermanentlyFailJobsResult::from_jobs(Some(vec![job(5), job(4)]));
    assert_eq!(result.permanently_failed_jobs, vec![job(5), job(4)]);
}

#[test]
fn rescheduling_nothing_gives_an_empty_list() {
    assert_eq!(RescheduleJobsResult::from_jobs(None).rescheduled_jobs, vec![]);
}

#[test]
fn rescheduled_jobs_are_kept_in_order() {
    let result = RescheduleJobsResult::from_jobs(Some(vec![job(8), job(9)]));
    assert_eq!(result.rescheduled_jobs, vec![job(8), job(9)]);
}

#[test]
fn removing_an_unknown_key_gives_no_job() {
    assert_eq!(RemoveJobResult::from_jobs(None).removed_job, None);
    assert_eq!(RemoveJobResult::from_jobs(Some(vec![])).removed_job, None);
}

#[test]
fn removing_a_known_key_gives_the_job() {
    assert_eq!(RemoveJobResult::from_jobs(Some(vec![job(11)])).removed_job, Some(job(11)));
    assert_eq!(RemoveJobResult::from_jobs(Some(vec![job(11), job(12)])).removed_job, Some(job(11)));
}
