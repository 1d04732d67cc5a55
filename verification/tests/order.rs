use graphboard::repositories::{job_order, JobOrderField, Order, RepositoryOrder, ToSqlIdent};

#[test]
fn order_defaults_to_first_field_ascending() {
    let none: Option<RepositoryOrder<JobOrderField>> = None;
    assert_eq!(none.order(), "task_identifier asc");
}

#[test]
fn default_field_is_the_first() {
    assert_eq!(JobOrderField::default(), JobOrderField::TaskIdentifier);
    let order: RepositoryOrder<JobOrderField> = RepositoryOrder::default();
    assert_eq!(order, RepositoryOrder::Asc(JobOrderField::TaskIdentifier));
}

#[test]
fn each_field_is_one_column() {
    assert_eq!(JobOrderField::TaskIdentifier.sql_ident(), "task_identifier");
    assert_eq!(JobOrderField::RunAt.sql_ident(), "run_at");
}

#[test]
fn order_is_column_and_direction() {
    assert_eq!(RepositoryOrder::Asc(JobOrderField::TaskIdentifier).order(), "task_identifier asc");
    assert_eq!(RepositoryOrder::Desc(JobOrderField::TaskIdentifier).order(), "task_identifier desc");
    assert_eq!(RepositoryOrder::Asc(JobOrderField::RunAt).order(), "run_at asc");
    assert_eq!(RepositoryOrder::Desc(JobOrderField::RunAt).order(), "run_at desc");
}

#[test]
fn given_order_is_used() {
    let some = Some(RepositoryOrder::Desc(JobOrderField::RunAt));
    assert_eq!(some.order(), "run_at desc");
}

#[test]
fn field_names_are_read_as_written() {
    assert_eq!(JobOrderField::from_name("taskIdentifier"), Some(JobOrderField::TaskIdentifier));
    assert_eq!(JobOrderField::from_name("runAt"), Some(JobOrderField::RunAt));
}

#[test]
fn unknown_field_names_are_refused() {
    assert_eq!(JobOrderField::from_name(""), None);
    assert_eq!(JobOrderField::from_name("task_identifier"), None);
    assert_eq!(JobOrderField::from_name("TaskIdentifier"), None);
    assert_eq!(JobOrderField::from_name("runat"), None);
    assert_eq!(JobOrderField::from_name("run_at"), None);
    assert_eq!(JobOrderField::from_name("id; drop table jobs"), None);
    assert_eq!(JobOrderField::from_name("runAt "), None);
}

#[test]
fn directions_are_read_as_written() {
    assert_eq!(
        RepositoryOrder::from_direction("asc", JobOrderField::RunAt),
        Some(RepositoryOrder::Asc(JobOrderField::RunAt))
    );
    assert_eq!(
        RepositoryOrder::from_direction("desc", JobOrderField::TaskIdentifier),
        Some(RepositoryOrder::Desc(JobOrderField::TaskIdentifier))
    );
}

#[test]
fn unknown_directions_are_refused() {
    assert_eq!(RepositoryOrder::from_direction("", JobOrderField::RunAt), None);
    assert_eq!(RepositoryOrder::from_direction("ASC", JobOrderField::RunAt), None);
    assert_eq!(RepositoryOrder::from_direction("Desc", JobOrderField::RunAt), None);
    assert_eq!(RepositoryOrder::from_direction("ascending", JobOrderField::RunAt), None);
}

#[test]
fn orders_are_read_from_their_two_names() {
    assert_eq!(job_order("asc", "taskIdentifier"), Ok(RepositoryOrder::Asc(JobOrderField::TaskIdentifier)));
    assert_eq!(job_order("desc", "taskIdentifier"), Ok(RepositoryOrder::Desc(JobOrderField::TaskIdentifier)));
    assert_eq!(job_order("asc", "runAt"), Ok(RepositoryOrder::Asc(JobOrderField::RunAt)));
    assert_eq!(job_order("desc", "runAt"), Ok(RepositoryOrder::Desc(JobOrderField::RunAt)));
}

#[test]
fn an_unknown_field_refuses_the_order() {
    assert_eq!(
        job_order("asc", "priority"),
        Err("unknown variant `priority`, expected `taskIdentifier` or `runAt`".to_string())
    );
    assert_eq!(
        job_order("desc", ""),
        Err("unknown variant ``, expected `taskIdentifier` or `runAt`".to_string())
    );
}

#[test]
fn an_unknown_direction_refuses_the_order() {
    assert_eq!(
        job_order("up", "runAt"),
        Err("unknown variant `up`, expected `asc` or `desc`".to_string())
    );
}

#[test]
fn an_unknown_direction_is_refused_before_an_unknown_field() {
    assert_eq!(
        job_order("up", "priority"),
        Err("unknown variant `up`, expected `asc` or `desc`".to_string())
    );
}
