//! The six operations on the job queue.
//!
//! Each operation is one statement with its arguments, and one reading of the
//! row that comes back. The caller runs the statement between the two.

use super::columns::{
    bigint, column_failed, integer, json, nullable_json, nullable_text, nullable_timestamp, text,
    timestamp,
};
use super::pattern::{lemma_escaped_empty, like_escape, like_escaped};
use super::query::{Argument, ArgumentView, Query};
use super::row::{
    json_cell, readable, row_cells, text_cell, timestamp_cell, Cell, CellKind,
};
use super::{
    Order, Pagination, RepositoryError, RepositoryOrder, RepositoryPagination, ToSqlIdent,
};
use crate::config::Schema;
use crate::models::job_model::{AddJobData, Job, Timestamp};
use crate::text::{decimal, decimal_text, text_eq};
use vstd::prelude::*;

verus! {

/// The fields that a list of jobs can be sorted by.
#[derive(Clone, Copy, Debug, PartialEq, Eq, Structural)]
pub enum JobOrderField {
    TaskIdentifier,
    RunAt,
}

impl ToSqlIdent for JobOrderField {
    /// Each field is one column, written out here and nowhere else.
    open spec fn sql_ident_spec(&self) -> Seq<char> {
        match self {
            JobOrderField::TaskIdentifier => "task_identifier"@,
            JobOrderField::RunAt => "run_at"@,
        }
    }

    fn sql_ident(&self) -> (ident: String) {
        match self {
            JobOrderField::TaskIdentifier => "task_identifier".to_owned(),
            JobOrderField::RunAt => "run_at".to_owned(),
        }
    }
}

/// The field that goes by `name` in a request, if any does. The names are
/// matched as they are written: no other spelling names a field.
pub open spec fn job_order_field_named(name: Seq<char>) -> Option<JobOrderField> {
    if name == "taskIdentifier"@ {
        Some(JobOrderField::TaskIdentifier)
    } else if name == "runAt"@ {
        Some(JobOrderField::RunAt)
    } else {
        None
    }
}

impl JobOrderField {
    /// Reads the field that a request names. A name that is not one of the
    /// fields gives nothing: it is for the caller to refuse the request.
    pub fn from_name(name: &str) -> (field: Option<JobOrderField>)
        ensures
            field == job_order_field_named(name@),
    {
        if text_eq(name, "taskIdentifier") {
            Some(JobOrderField::TaskIdentifier)
        } else if text_eq(name, "runAt") {
            Some(JobOrderField::RunAt)
        } else {
            None
        }
    }
}

impl Default for JobOrderField {
    /// The first field.
    fn default() -> (field: Self)
        ensures
            field == JobOrderField::TaskIdentifier,
    {
        JobOrderField::TaskIdentifier
    }
}

/// The substrings that the listed jobs must hold. An absent filter holds for
/// every job.
#[derive(Clone, Debug, PartialEq)]
pub struct FindJobsFilters {
    pub task_identifier: Option<String>,
    pub queue_name: Option<String>,
}

impl Default for FindJobsFilters {
    /// No filter at all.
    fn default() -> (filters: Self)
        ensures
            filters == (FindJobsFilters { task_identifier: None, queue_name: None }),
    {
        FindJobsFilters { task_identifier: None, queue_name: None }
    }
}

/// What a client may say about the list of jobs it asks for.
#[derive(Clone, Debug, PartialEq)]
pub struct FindJobsParams {
    pub order: Option<RepositoryOrder<JobOrderField>>,
    pub pagination: Option<RepositoryPagination>,
    pub filters: Option<FindJobsFilters>,
}

/// The filters that were given; where none were, no filter at all.
pub open spec fn filters_of(filters: Option<FindJobsFilters>) -> FindJobsFilters {
    match filters {
        Some(filters) => filters,
        None => FindJobsFilters { task_identifier: None, queue_name: None },
    }
}

impl FindJobsParams {
    pub fn filters(self) -> (filters: FindJobsFilters)
        ensures
            filters == filters_of(self.filters),
    {
        match self.filters {
            Some(filters) => filters,
            None => FindJobsFilters::default(),
        }
    }
}

/// What a request is told when it names a direction or a field that there is
/// not: the name it gave, and the names there are.
pub open spec fn unknown_variant(name: Seq<char>, expected: Seq<char>) -> Seq<char> {
    "unknown variant `"@ + name + "`, expected "@ + expected
}

/// The order that a request asks for by the two names it gives. A direction
/// that is not one is refused first, then a field that is not one.
pub open spec fn job_order_named(direction: Seq<char>, field: Seq<char>) -> Result<
    RepositoryOrder<JobOrderField>,
    Seq<char>,
> {
    if direction != "asc"@ && direction != "desc"@ {
        Err(unknown_variant(direction, "`asc` or `desc`"@))
    } else {
        match job_order_field_named(field) {
            Some(field) => Ok(
                if direction == "asc"@ {
                    RepositoryOrder::Asc(field)
                } else {
                    RepositoryOrder::Desc(field)
                },
            ),
            None => Err(unknown_variant(field, "`taskIdentifier` or `runAt`"@)),
        }
    }
}

fn unknown_variant_text(name: &str, expected: &str) -> (message: String)
    ensures
        message@ == unknown_variant(name@, expected@),
{
    let mut message = "unknown variant `".to_owned();
    message.append(name);
    message.append("`, expected ");
    message.append(expected);
    message
}

/// Reads the order that a request asks for. A name that is not a direction,
/// or not a field, is never passed over: the request is refused with a
/// message that says which name it was.
pub fn job_order(direction: &str, field: &str) -> (order: Result<
    RepositoryOrder<JobOrderField>,
    String,
>)
    ensures
        match job_order_named(direction@, field@) {
            Ok(named) => order == Ok::<RepositoryOrder<JobOrderField>, String>(named),
            Err(message) => order matches Err(text) && text@ == message,
        },
{
    match RepositoryOrder::from_direction(direction, ()) {
        None => Err(unknown_variant_text(direction, "`asc` or `desc`")),
        Some(ascending) => {
            match JobOrderField::from_name(field) {
                None => Err(unknown_variant_text(field, "`taskIdentifier` or `runAt`")),
                Some(field) => match ascending {
                    RepositoryOrder::Asc(_) => Ok(RepositoryOrder::Asc(field)),
                    RepositoryOrder::Desc(_) => Ok(RepositoryOrder::Desc(field)),
                },
            }
        },
    }
}

/// The ordering of a list of jobs, as it is written after `order by`: the
/// column and the direction, or, where the client gave none, the first field
/// ascending.
pub open spec fn job_order_text(order: Option<RepositoryOrder<JobOrderField>>) -> Seq<char> {
    match order {
        Some(RepositoryOrder::Asc(field)) => field.sql_ident_spec() + " asc"@,
        Some(RepositoryOrder::Desc(field)) => field.sql_ident_spec() + " desc"@,
        None => "task_identifier asc"@,
    }
}

/// The ordering of a list of jobs is the text that [`job_order_text`] gives,
/// and no other.
pub proof fn lemma_job_order(order: Option<RepositoryOrder<JobOrderField>>, text: Seq<char>)
    requires
        order.order_spec(text),
    ensures
        text == job_order_text(order),
{
    if order is None {
        let field = choose|field: JobOrderField| #[trigger]
            call_ensures(JobOrderField::default, (), field) && text == field.sql_ident_spec()
                + " asc"@;
        assert(field == JobOrderField::TaskIdentifier);
        reveal_strlit("task_identifier");
        reveal_strlit(" asc");
        reveal_strlit("task_identifier asc");
        assert(text =~= "task_identifier asc"@);
    }
}

/// Whatever order a client asks for, what reaches the statement is one of four
/// texts: one of the two columns, and one of the two directions.
pub proof fn lemma_job_order_is_enumerated(order: Option<RepositoryOrder<JobOrderField>>)
    ensures
        ({
            let text = job_order_text(order);
            ||| text == "task_identifier asc"@
            ||| text == "task_identifier desc"@
            ||| text == "run_at asc"@
            ||| text == "run_at desc"@
        }),
{
    reveal_strlit("task_identifier");
    reveal_strlit("run_at");
    reveal_strlit(" asc");
    reveal_strlit(" desc");
    reveal_strlit("task_identifier asc");
    reveal_strlit("task_identifier desc");
    reveal_strlit("run_at asc");
    reveal_strlit("run_at desc");
    let text = job_order_text(order);
    match order {
        Some(RepositoryOrder::Asc(JobOrderField::TaskIdentifier)) => {
            assert(text =~= "task_identifier asc"@);
        },
        Some(RepositoryOrder::Desc(JobOrderField::TaskIdentifier)) => {
            assert(text =~= "task_identifier desc"@);
        },
        Some(RepositoryOrder::Asc(JobOrderField::RunAt)) => {
            assert(text =~= "run_at asc"@);
        },
        Some(RepositoryOrder::Desc(JobOrderField::RunAt)) => {
            assert(text =~= "run_at desc"@);
        },
        None => {},
    }
}

/// The text that a filter asks for: its own, or the empty text where it is
/// not given.
pub open spec fn filter_given(filter: Option<String>) -> Seq<char> {
    match filter {
        Some(text) => text@,
        None => Seq::empty(),
    }
}

/// The pattern that a filter is found by: the filter's text with every
/// backslash, `%` and `_` escaped, so that the filter is found as it is
/// written; the empty pattern, which every text holds, where no filter is
/// given.
pub open spec fn filter_text(filter: Option<String>) -> Seq<char> {
    match filter {
        Some(text) => like_escaped(text@),
        None => Seq::empty(),
    }
}

/// The two arguments of listing: the pattern for the task identifier, and the
/// pattern for the queue name.
pub open spec fn find_jobs_arguments(filters: Option<FindJobsFilters>) -> Seq<ArgumentView> {
    seq![
        ArgumentView::Text(Some(filter_text(filters_of(filters).task_identifier))),
        ArgumentView::Text(Some(filter_text(filters_of(filters).queue_name))),
    ]
}

/// The jobs that pass the filters: those whose task identifier holds the text
/// that the first argument stands for and whose queue name, read as empty
/// where the job has none, holds the text that the second stands for, both
/// without regard to case. The arguments are patterns, with the backslash as
/// the character that escapes.
pub open spec fn matching_jobs(schema: Seq<char>) -> Seq<char> {
    "select j.* from "@ + schema
        + ".jobs j where j.task_identifier ilike concat('%', $1::text, '%') and coalesce(j.queue_name, '') ilike concat('%', $2::text, '%')"@
}

/// The column `jobs`: one page of the matching jobs as a JSON array, which is
/// empty where no job matches.
pub open spec fn jobs_column(schema: Seq<char>, order: Seq<char>, limit: nat, offset: nat) -> Seq<
    char,
> {
    "coalesce((select json_agg(data)::text from ("@ + matching_jobs(schema) + " order by "@
        + order + " limit "@ + decimal(limit) + " offset "@ + decimal(offset)
        + ") data), '[]') as jobs"@
}

/// The column `count`: the number of all matching jobs, on whatever page.
pub open spec fn count_column(schema: Seq<char>) -> Seq<char> {
    "coalesce((select count(c.*) from ("@ + matching_jobs(schema) + ") c), 0) as count"@
}

/// The statement that lists jobs.
pub open spec fn find_jobs_statement(
    schema: Seq<char>,
    order: Seq<char>,
    limit: nat,
    offset: nat,
) -> Seq<char> {
    "select "@ + jobs_column(schema, order, limit, offset) + ", "@ + count_column(schema)
}

/// The count is taken over the filters alone: the statement ends with the same
/// count column whatever the order and the page.
pub proof fn lemma_count_ignores_page(schema: Seq<char>, order: Seq<char>, limit: nat, offset: nat)
    ensures
        count_column(schema).is_suffix_of(find_jobs_statement(schema, order, limit, offset)),
{
    let statement = find_jobs_statement(schema, order, limit, offset);
    let count = count_column(schema);
    assert(statement.skip(statement.len() - count.len()) =~= count);
}

/// The statement that [`find_jobs`] gives for `params`.
pub open spec fn statement_of(schema: Seq<char>, params: FindJobsParams) -> Seq<char> {
    find_jobs_statement(
        schema,
        job_order_text(params.order),
        params.pagination.limit_spec() as nat,
        params.pagination.offset_spec() as nat,
    )
}

/// What is counted does not depend on the order or the page: two requests
/// with the same filters count with the same column and the same arguments.
pub proof fn lemma_count_depends_on_filters_alone(
    schema: Seq<char>,
    one: FindJobsParams,
    other: FindJobsParams,
)
    requires
        one.filters == other.filters,
    ensures
        find_jobs_arguments(one.filters) == find_jobs_arguments(other.filters),
        count_column(schema).is_suffix_of(statement_of(schema, one)),
        count_column(schema).is_suffix_of(statement_of(schema, other)),
{
    lemma_count_ignores_page(
        schema,
        job_order_text(one.order),
        one.pagination.limit_spec() as nat,
        one.pagination.offset_spec() as nat,
    );
    lemma_count_ignores_page(
        schema,
        job_order_text(other.order),
        other.pagination.limit_spec() as nat,
        other.pagination.offset_spec() as nat,
    );
}

/// Where no filter is given, or the filters given are empty, both arguments
/// are the empty pattern, which every text holds: every job is counted.
pub proof fn lemma_no_filter_is_empty_pattern(filters: Option<FindJobsFilters>)
    requires
        filter_given(filters_of(filters).task_identifier) == Seq::<char>::empty(),
        filter_given(filters_of(filters).queue_name) == Seq::<char>::empty(),
    ensures
        find_jobs_arguments(filters) == seq![
            ArgumentView::Text(Some(Seq::<char>::empty())),
            ArgumentView::Text(Some(Seq::<char>::empty())),
        ],
{
    lemma_escaped_empty();
}

fn matching_jobs_text(schema: &Schema) -> (text: String)
    ensures
        text@ == matching_jobs(schema@),
{
    let mut text = "select j.* from ".to_owned();
    text.append(schema.as_str());
    text.append(
        ".jobs j where j.task_identifier ilike concat('%', $1::text, '%') and coalesce(j.queue_name, '') ilike concat('%', $2::text, '%')",
    );
    text
}

fn filter_argument(filter: Option<String>) -> (argument: Argument)
    ensures
        argument.deep_view() == ArgumentView::Text(Some(filter_text(filter))),
{
    match filter {
        Some(text) => Argument::Text(Some(like_escape(text.as_str()))),
        None => Argument::Text(Some(String::new())),
    }
}

/// Lists jobs: one page of those that pass the filters, in the order asked
/// for, and the number of all that pass.
pub fn find_jobs(schema: &Schema, params: FindJobsParams) -> (query: Query)
    requires
        0 <= params.pagination.offset_spec() <= u64::MAX,
    ensures
        query.statement@ == statement_of(schema@, params),
        query.arguments.deep_view() == find_jobs_arguments(params.filters),
{
    let matching = matching_jobs_text(schema);
    let order = params.order.order();
    proof {
        lemma_job_order(params.order, order@);
    }
    let limit: u64 = params.pagination.limit();
    let offset: u64 = params.pagination.offset();

    let mut jobs = "coalesce((select json_agg(data)::text from (".to_owned();
    jobs.append(matching.as_str());
    jobs.append(" order by ");
    jobs.append(order.as_str());
    jobs.append(" limit ");
    jobs.append(decimal_text(limit).as_str());
    jobs.append(" offset ");
    jobs.append(decimal_text(offset).as_str());
    jobs.append(") data), '[]') as jobs");

    let mut count = "coalesce((select count(c.*) from (".to_owned();
    count.append(matching.as_str());
    count.append(") c), 0) as count");

    let mut statement = "select ".to_owned();
    statement.append(jobs.as_str());
    statement.append(", ");
    statement.append(count.as_str());

    let filters = params.filters();
    let mut arguments: Vec<Argument> = Vec::new();
    arguments.push(filter_argument(filters.task_identifier));
    arguments.push(filter_argument(filters.queue_name));
    let query = Query { statement, arguments };
    assert(query.arguments.deep_view() =~= find_jobs_arguments(params.filters));
    query
}

/// The columns of a job, in the order in which they are read: the name of
/// each, its type, and whether it may hold null.
pub open spec fn job_columns() -> Seq<(Seq<char>, CellKind, bool)> {
    seq![
        ("id"@, CellKind::Bigint, false),
        ("queue_name"@, CellKind::Text, true),
        ("task_identifier"@, CellKind::Text, false),
        ("payload"@, CellKind::Json, false),
        ("priority"@, CellKind::Integer, false),
        ("run_at"@, CellKind::Timestamp, false),
        ("attempts"@, CellKind::Integer, false),
        ("max_attempts"@, CellKind::Integer, false),
        ("last_error"@, CellKind::Text, true),
        ("created_at"@, CellKind::Timestamp, false),
        ("updated_at"@, CellKind::Timestamp, false),
        ("key"@, CellKind::Text, true),
        ("locked_at"@, CellKind::Timestamp, true),
        ("locked_by"@, CellKind::Text, true),
        ("revision"@, CellKind::Integer, false),
        ("flags"@, CellKind::Json, true),
    ]
}

/// Whether the column of number `index` of a job can be read from `row`.
pub open spec fn job_column_readable(row: tokio_postgres::Row, index: int) -> bool {
    let column = job_columns()[index];
    readable(row, column.0, column.1, column.2)
}

/// Whether every column of a job can be read from `row`.
pub open spec fn job_readable(row: tokio_postgres::Row) -> bool {
    forall|index: int|
        0 <= index < job_columns().len() ==> #[trigger] job_column_readable(row, index)
}

/// Whether `error` says that, of the columns of a job, that of number `index`
/// is the first that cannot be read from `row`: it names that column, that
/// column cannot be read, and every column before it can.
pub open spec fn first_failed(
    error: RepositoryError,
    row: tokio_postgres::Row,
    index: int,
) -> bool {
    &&& 0 <= index < job_columns().len()
    &&& column_failed(error, job_columns()[index].0)
    &&& !job_column_readable(row, index)
    &&& forall|before: int| 0 <= before < index ==> #[trigger] job_column_readable(row, before)
}

/// Whether `job` is the job of `row`: each of its fields is what the row holds
/// in the column of the field's name.
pub open spec fn job_of_row(job: Job, row: tokio_postgres::Row) -> bool {
    let cells = row_cells(row);
    &&& cells["id"@] == Cell::Bigint(job.id)
    &&& cells["queue_name"@] == text_cell(job.queue_name)
    &&& cells["task_identifier"@] == Cell::Text(job.task_identifier@)
    &&& cells["payload"@] == Cell::Json(job.payload)
    &&& cells["priority"@] == Cell::Integer(job.priority)
    &&& cells["run_at"@] == Cell::Timestamp(job.run_at)
    &&& cells["attempts"@] == Cell::Integer(job.attempts)
    &&& cells["max_attempts"@] == Cell::Integer(job.max_attempts)
    &&& cells["last_error"@] == text_cell(job.last_error)
    &&& cells["created_at"@] == Cell::Timestamp(job.created_at)
    &&& cells["updated_at"@] == Cell::Timestamp(job.updated_at)
    &&& cells["key"@] == text_cell(job.key)
    &&& cells["locked_at"@] == timestamp_cell(job.locked_at)
    &&& cells["locked_by"@] == text_cell(job.locked_by)
    &&& cells["revision"@] == Cell::Integer(job.revision)
    &&& cells["flags"@] == json_cell(job.flags)
}

impl Job {
    /// Reads a job from a row. The reading succeeds exactly where the row
    /// holds, for each field of a job, a column of the field's name and type,
    /// and then each field is what the row holds in its column. Where it
    /// fails, the failure names the first column, in the order of the fields,
    /// that the row does not hold so.
    pub fn try_from(row: &tokio_postgres::Row) -> (job: Result<Job, RepositoryError>)
        ensures
            job is Ok <==> job_readable(*row),
            match job {
                Ok(job) => job_of_row(job, *row),
                Err(error) => exists|index: int| first_failed(error, *row, index),
            },
    {
        let id = match bigint(row, "id") {
            Ok(v) => v,
            Err(error) => {
                assert(first_failed(error, *row, 0));
                return Err(error);
            },
        };
        assert(job_column_readable(*row, 0));
        let queue_name = match nullable_text(row, "queue_name") {
            Ok(v) => v,
            Err(error) => {
                assert(first_failed(error, *row, 1));
                return Err(error);
            },
        };
        assert(job_column_readable(*row, 1));
        let task_identifier = match text(row, "task_identifier") {
            Ok(v) => v,
            Err(error) => {
                assert(first_failed(error, *row, 2));
                return Err(error);
            },
        };
        assert(job_column_readable(*row, 2));
        let payload = match json(row, "payload") {
            Ok(v) => v,
            Err(error) => {
                assert(first_failed(error, *row, 3));
                return Err(error);
            },
        };
        assert(job_column_readable(*row, 3));
        let priority = match integer(row, "priority") {
            Ok(v) => v,
            Err(error) => {
                assert(first_failed(error, *row, 4));
                return Err(error);
            },
        };
        assert(job_column_readable(*row, 4));
        let run_at = match timestamp(row, "run_at") {
            Ok(v) => v,
            Err(error) => {
                assert(first_failed(error, *row, 5));
                return Err(error);
            },
        };
        assert(job_column_readable(*row, 5));
        let attempts = match integer(row, "attempts") {
            Ok(v) => v,
            Err(error) => {
                assert(first_failed(error, *row, 6));
                return Err(error);
            },
        };
        assert(job_column_readable(*row, 6));
        let max_attempts = match integer(row, "max_attempts") {
            Ok(v) => v,
            Err(error) => {
                assert(first_failed(error, *row, 7));
                return Err(error);
            },
        };
        assert(job_column_readable(*row, 7));
        let last_error = match nullable_text(row, "last_error") {
            Ok(v) => v,
            Err(error) => {
                assert(first_failed(error, *row, 8));
                return Err(error);
            },
        };
        assert(job_column_readable(*row, 8));
        let created_at = match timestamp(row, "created_at") {
            Ok(v) => v,
            Err(error) => {
                assert(first_failed(error, *row, 9));
                return Err(error);
            },
        };
        assert(job_column_readable(*row, 9));
        let updated_at = match timestamp(row, "updated_at") {
            Ok(v) => v,
            Err(error) => {
                assert(first_failed(error, *row, 10));
                return Err(error);
            },
        };
        assert(job_column_readable(*row, 10));
        let key = match nullable_text(row, "key") {
            Ok(v) => v,
            Err(error) => {
                assert(first_failed(error, *row, 11));
                return Err(error);
            },
        };
        assert(job_column_readable(*row, 11));
        let locked_at = match nullable_timestamp(row, "locked_at") {
            Ok(v) => v,
            Err(error) => {
                assert(first_failed(error, *row, 12));
                return Err(error);
            },
        };
        assert(job_column_readable(*row, 12));
        let locked_by = match nullable_text(row, "locked_by") {
            Ok(v) => v,
            Err(error) => {
                assert(first_failed(error, *row, 13));
                return Err(error);
            },
        };
        assert(job_column_readable(*row, 13));
        let revision = match integer(row, "revision") {
            Ok(v) => v,
            Err(error) => {
                assert(first_failed(error, *row, 14));
                return Err(error);
            },
        };
        assert(job_column_readable(*row, 14));
        let flags = match nullable_json(row, "flags") {
            Ok(v) => v,
            Err(error) => {
                assert(first_failed(error, *row, 15));
                return Err(error);
            },
        };
        assert(job_column_readable(*row, 15));
        assert(job_readable(*row)) by {
            assert forall|index: int| 0 <= index < job_columns().len() implies
                #[trigger] job_column_readable(*row, index) by {
                if index == 0 {
                }
                if index == 1 {
                }
                if index == 2 {
                }
                if index == 3 {
                }
                if index == 4 {
                }
                if index == 5 {
                }
                if index == 6 {
                }
                if index == 7 {
                }
                if index == 8 {
                }
                if index == 9 {
                }
                if index == 10 {
                }
                if index == 11 {
                }
                if index == 12 {
                }
                if index == 13 {
                }
                if index == 14 {
                }
                if index == 15 {
                }
            }
        }
        Ok(
            Job {
                id,
                queue_name,
                task_identifier,
                payload,
                priority,
                run_at,
                attempts,
                max_attempts,
                last_error,
                created_at,
                updated_at,
                key,
                locked_at,
                locked_by,
                revision,
                flags,
            },
        )
    }
}

/// The jobs that an aggregate stands for. The database gives no aggregate at
/// all where it aggregated no row: that is the empty list, and no failure.
pub open spec fn listed(jobs: Option<Vec<Job>>) -> Seq<Job> {
    match jobs {
        Some(jobs) => jobs@,
        None => Seq::empty(),
    }
}

fn list(jobs: Option<Vec<Job>>) -> (list: Vec<Job>)
    ensures
        list@ == listed(jobs),
{
    match jobs {
        Some(jobs) => jobs,
        None => Vec::new(),
    }
}

/// One page of jobs, and the number of all jobs that pass the filters.
#[derive(Debug, PartialEq)]
pub struct FindJobsResult {
    pub jobs: Vec<Job>,
    pub count: i64,
}

impl FindJobsResult {
    /// The column `jobs` of the row: the page as JSON text, still to be
    /// decoded.
    pub fn json(row: &tokio_postgres::Row) -> (text: Result<Option<String>, RepositoryError>)
        ensures
            text is Ok <==> readable(*row, "jobs"@, CellKind::Text, true),
            match text {
                Ok(text) => row_cells(*row)["jobs"@] == text_cell(text),
                Err(error) => column_failed(error, "jobs"@),
            },
    {
        nullable_text(row, "jobs")
    }

    /// Puts the decoded page together with the column `count` of the row.
    pub fn try_from(row: &tokio_postgres::Row, jobs: Option<Vec<Job>>) -> (result: Result<
        FindJobsResult,
        RepositoryError,
    >)
        ensures
            result is Ok <==> readable(*row, "count"@, CellKind::Bigint, false),
            match result {
                Ok(found) => {
                    &&& found.jobs@ == listed(jobs)
                    &&& row_cells(*row)["count"@] == Cell::Bigint(found.count)
                },
                Err(error) => column_failed(error, "count"@),
            },
    {
        match bigint(row, "count") {
            Ok(count) => Ok(FindJobsResult { jobs: list(jobs), count }),
            Err(error) => Err(error),
        }
    }
}

/// The statement that enqueues a job.
pub open spec fn add_job_statement(schema: Seq<char>) -> Seq<char> {
    "select j.* from "@ + schema
        + ".add_job($1::text, $2::json, $3::text, $4::timestamptz, $5::integer, $6::text, $7::integer, $8::text[], $9::text) j"@
}

/// The nine arguments of enqueuing, in the order of the stored function.
pub open spec fn add_job_arguments(data: AddJobData) -> Seq<ArgumentView> {
    seq![
        ArgumentView::Text(Some(data.task_identifier@)),
        ArgumentView::Json(data.payload),
        ArgumentView::Text(data.queue_name.deep_view()),
        ArgumentView::Timestamp(data.run_at),
        ArgumentView::Integer(data.max_attempts),
        ArgumentView::Text(data.job_key.deep_view()),
        ArgumentView::Integer(data.priority),
        ArgumentView::TextList(data.flags.deep_view()),
        ArgumentView::Text(data.job_key_mode.deep_view()),
    ]
}

fn call_statement(before: &str, schema: &Schema, after: &str) -> (text: String)
    ensures
        text@ == before@ + schema@ + after@,
{
    let mut text = before.to_owned();
    text.append(schema.as_str());
    text.append(after);
    text
}

/// Enqueues a job. What happens to a job that is already there under the same
/// key is the stored function's to decide. The row that comes back is the job:
/// [`Job::try_from`] reads it.
pub fn add_job(schema: &Schema, data: AddJobData) -> (query: Query)
    ensures
        query.statement@ == add_job_statement(schema@),
        query.arguments.deep_view() == add_job_arguments(data),
{
    let statement = call_statement(
        "select j.* from ",
        schema,
        ".add_job($1::text, $2::json, $3::text, $4::timestamptz, $5::integer, $6::text, $7::integer, $8::text[], $9::text) j",
    );
    let mut arguments: Vec<Argument> = Vec::new();
    arguments.push(Argument::Text(Some(data.task_identifier)));
    arguments.push(Argument::Json(data.payload));
    arguments.push(Argument::Text(data.queue_name));
    arguments.push(Argument::Timestamp(data.run_at));
    arguments.push(Argument::Integer(data.max_attempts));
    arguments.push(Argument::Text(data.job_key));
    arguments.push(Argument::Integer(data.priority));
    arguments.push(Argument::TextList(data.flags));
    arguments.push(Argument::Text(data.job_key_mode));
    let query = Query { statement, arguments };
    assert(query.arguments.deep_view() =~= add_job_arguments(data));
    query
}

/// The jobs that were completed.
#[derive(Debug, PartialEq)]
pub struct CompleteJobsResult {
    pub completed_jobs: Vec<Job>,
}

impl CompleteJobsResult {
    /// The column `completed_jobs` of the row: the jobs as JSON text, still
    /// to be decoded, or nothing where no job was completed.
    pub fn json(row: &tokio_postgres::Row) -> (text: Result<Option<String>, RepositoryError>)
        ensures
            text is Ok <==> readable(*row, "completed_jobs"@, CellKind::Text, true),
            match text {
                Ok(text) => row_cells(*row)["completed_jobs"@] == text_cell(text),
                Err(error) => column_failed(error, "completed_jobs"@),
            },
    {
        nullable_text(row, "completed_jobs")
    }

    /// The result for the decoded jobs. Where no job was completed the list
    /// is empty.
    pub fn from_jobs(jobs: Option<Vec<Job>>) -> (result: CompleteJobsResult)
        ensures
            result.completed_jobs@ == listed(jobs),
    {
        CompleteJobsResult { completed_jobs: list(jobs) }
    }
}

/// The statement that completes jobs.
pub open spec fn complete_jobs_statement(schema: Seq<char>) -> Seq<char> {
    "select json_agg(cj)::text completed_jobs from "@ + schema
        + ".complete_jobs($1::bigint[]) cj"@
}

/// Completes the jobs of the given ids. Which of them were there to complete
/// is the stored function's to decide: the row holds those that were.
pub fn complete_jobs(schema: &Schema, job_ids: Vec<i64>) -> (query: Query)
    ensures
        query.statement@ == complete_jobs_statement(schema@),
        query.arguments.deep_view() == seq![ArgumentView::BigintList(job_ids@)],
{
    let statement = call_statement(
        "select json_agg(cj)::text completed_jobs from ",
        schema,
        ".complete_jobs($1::bigint[]) cj",
    );
    let mut arguments: Vec<Argument> = Vec::new();
    arguments.push(Argument::BigintList(job_ids));
    let query = Query { statement, arguments };
    assert(job_ids.deep_view() =~= job_ids@);
    assert(query.arguments.deep_view() =~= seq![ArgumentView::BigintList(job_ids@)]);
    query
}

/// The jobs that were made to fail for good.
#[derive(Debug, PartialEq)]
pub struct PermanentlyFailJobsResult {
    pub permanently_failed_jobs: Vec<Job>,
}

impl PermanentlyFailJobsResult {
    /// The column `permanently_failed_jobs` of the row: the jobs as JSON
    /// text, still to be decoded, or nothing where no job was touched.
    pub fn json(row: &tokio_postgres::Row) -> (text: Result<Option<String>, RepositoryError>)
        ensures
            text is Ok <==> readable(*row, "permanently_failed_jobs"@, CellKind::Text, true),
            match text {
                Ok(text) => row_cells(*row)["permanently_failed_jobs"@] == text_cell(text),
                Err(error) => column_failed(error, "permanently_failed_jobs"@),
            },
    {
        nullable_text(row, "permanently_failed_jobs")
    }

    /// The result for the decoded jobs. Where no job was touched the list is
    /// empty.
    pub fn from_jobs(jobs: Option<Vec<Job>>) -> (result: PermanentlyFailJobsResult)
        ensures
            result.permanently_failed_jobs@ == listed(jobs),
    {
        PermanentlyFailJobsResult { permanently_failed_jobs: list(jobs) }
    }
}

/// The statement that makes jobs fail for good.
pub open spec fn permanently_fail_jobs_statement(schema: Seq<char>) -> Seq<char> {
    "select json_agg(f)::text permanently_failed_jobs from "@ + schema
        + ".permanently_fail_jobs($1::bigint[], $2::text) f"@
}

/// Makes the jobs of the given ids fail for good, all of them with the one
/// message.
pub fn permanently_fail_jobs(schema: &Schema, job_ids: Vec<i64>, error_messages: String) -> (query:
    Query)
    ensures
        query.statement@ == permanently_fail_jobs_statement(schema@),
        query.arguments.deep_view() == seq![
            ArgumentView::BigintList(job_ids@),
            ArgumentView::Text(Some(error_messages@)),
        ],
{
    let statement = call_statement(
        "select json_agg(f)::text permanently_failed_jobs from ",
        schema,
        ".permanently_fail_jobs($1::bigint[], $2::text) f",
    );
    let mut arguments: Vec<Argument> = Vec::new();
    arguments.push(Argument::BigintList(job_ids));
    arguments.push(Argument::Text(Some(error_messages)));
    let query = Query { statement, arguments };
    assert(job_ids.deep_view() =~= job_ids@);
    assert(query.arguments.deep_view() =~= seq![
        ArgumentView::BigintList(job_ids@),
        ArgumentView::Text(Some(error_messages@)),
    ]);
    query
}

/// The jobs to put off, and what to change in them. What is left out stays
/// as it is.
#[derive(Debug, PartialEq)]
pub struct RescheduleJobsData {
    pub job_ids: Vec<i64>,
    pub run_at: Option<Timestamp>,
    pub priority: Option<i32>,
    pub attempts: Option<u32>,
    pub max_attempts: Option<u32>,
}

/// The jobs that were put off.
#[derive(Debug, PartialEq)]
pub struct RescheduleJobsResult {
    pub rescheduled_jobs: Vec<Job>,
}

impl RescheduleJobsResult {
    /// The column `rescheduled_jobs` of the row: the jobs as JSON text, still
    /// to be decoded, or nothing where no job was touched.
    pub fn json(row: &tokio_postgres::Row) -> (text: Result<Option<String>, RepositoryError>)
        ensures
            text is Ok <==> readable(*row, "rescheduled_jobs"@, CellKind::Text, true),
            match text {
                Ok(text) => row_cells(*row)["rescheduled_jobs"@] == text_cell(text),
                Err(error) => column_failed(error, "rescheduled_jobs"@),
            },
    {
        nullable_text(row, "rescheduled_jobs")
    }

    /// The result for the decoded jobs. Where no job was touched the list is
    /// empty.
    pub fn from_jobs(jobs: Option<Vec<Job>>) -> (result: RescheduleJobsResult)
        ensures
            result.rescheduled_jobs@ == listed(jobs),
    {
        RescheduleJobsResult { rescheduled_jobs: list(jobs) }
    }
}

/// Whether a count can be sent: the stored function takes it as an integer
/// of 32 bits with a sign, which holds no count above 2147483647.
pub open spec fn count_fits(count: Option<u32>) -> bool {
    match count {
        Some(count) => count <= i32::MAX,
        None => true,
    }
}

/// A count that fits as it is sent: the same number.
pub open spec fn sent_count(count: Option<u32>) -> Option<i32> {
    match count {
        Some(count) => Some(count as i32),
        None => None,
    }
}

/// A count that fits is sent as it was given: the number is the same.
pub proof fn lemma_sent_count_is_given(count: u32)
    requires
        count_fits(Some(count)),
    ensures
        sent_count(Some(count)) matches Some(sent) && sent as int == count as int,
{
}

impl RescheduleJobsData {
    /// Whether both counts of attempts, where given, can be sent.
    pub open spec fn counts_fit_spec(&self) -> bool {
        count_fits(self.attempts) && count_fits(self.max_attempts)
    }

    /// Whether both counts of attempts, where given, can be sent. A request
    /// with a count that cannot is to be refused.
    pub fn counts_fit(&self) -> (fits: bool)
        ensures
            fits == self.counts_fit_spec(),
    {
        let attempts = match self.attempts {
            Some(count) => count <= 0x7fff_ffff,
            None => true,
        };
        let max_attempts = match self.max_attempts {
            Some(count) => count <= 0x7fff_ffff,
            None => true,
        };
        attempts && max_attempts
    }
}

fn counts(count: Option<u32>) -> (sent: Option<i32>)
    requires
        count_fits(count),
    ensures
        sent == sent_count(count),
        count matches Some(given) ==> sent matches Some(number) && number as int == given as int,
{
    match count {
        Some(count) => Some(count as i32),
        None => None,
    }
}

/// The statement that puts jobs off.
pub open spec fn reschedule_jobs_statement(schema: Seq<char>) -> Seq<char> {
    "select json_agg(r)::text rescheduled_jobs from "@ + schema
        + ".reschedule_jobs($1::bigint[], $2::timestamptz, $3::integer, $4::integer, $5::integer) r"@
}

/// Puts off the jobs of the given ids: sets the time to run at, the priority
/// and the two counts of attempts, each only where it is given, and each as
/// it is given.
pub fn reschedule_jobs(schema: &Schema, data: RescheduleJobsData) -> (query: Query)
    requires
        data.counts_fit_spec(),
    ensures
        query.statement@ == reschedule_jobs_statement(schema@),
        query.arguments.deep_view() == seq![
            ArgumentView::BigintList(data.job_ids@),
            ArgumentView::Timestamp(data.run_at),
            ArgumentView::Integer(data.priority),
            ArgumentView::Integer(sent_count(data.attempts)),
            ArgumentView::Integer(sent_count(data.max_attempts)),
        ],
{
    let statement = call_statement(
        "select json_agg(r)::text rescheduled_jobs from ",
        schema,
        ".reschedule_jobs($1::bigint[], $2::timestamptz, $3::integer, $4::integer, $5::integer) r",
    );
    let mut arguments: Vec<Argument> = Vec::new();
    arguments.push(Argument::BigintList(data.job_ids));
    arguments.push(Argument::Timestamp(data.run_at));
    arguments.push(Argument::Integer(data.priority));
    arguments.push(Argument::Integer(counts(data.attempts)));
    arguments.push(Argument::Integer(counts(data.max_attempts)));
    let query = Query { statement, arguments };
    assert(data.job_ids.deep_view() =~= data.job_ids@);
    assert(query.arguments.deep_view() =~= seq![
        ArgumentView::BigintList(data.job_ids@),
        ArgumentView::Timestamp(data.run_at),
        ArgumentView::Integer(data.priority),
        ArgumentView::Integer(sent_count(data.attempts)),
        ArgumentView::Integer(sent_count(data.max_attempts)),
    ]);
    query
}

/// The job that was removed, or none where no job had the key.
#[derive(Debug, PartialEq)]
pub struct RemoveJobResult {
    pub removed_job: Option<Job>,
}

/// The first of the jobs, if there is one.
pub open spec fn first_listed(jobs: Option<Vec<Job>>) -> Option<Job> {
    if listed(jobs).len() > 0 {
        Some(listed(jobs)[0])
    } else {
        None
    }
}

impl RemoveJobResult {
    /// The column `removed_job` of the row: the job as JSON text, still to
    /// be decoded, or nothing where no job had the key.
    pub fn json(row: &tokio_postgres::Row) -> (text: Result<Option<String>, RepositoryError>)
        ensures
            text is Ok <==> readable(*row, "removed_job"@, CellKind::Text, true),
            match text {
                Ok(text) => row_cells(*row)["removed_job"@] == text_cell(text),
                Err(error) => column_failed(error, "removed_job"@),
            },
    {
        nullable_text(row, "removed_job")
    }

    /// The result for the decoded jobs. A key that no job had gives no job,
    /// and no failure.
    pub fn from_jobs(jobs: Option<Vec<Job>>) -> (result: RemoveJobResult)
        ensures
            result.removed_job == first_listed(jobs),
    {
        let mut jobs = list(jobs);
        if jobs.len() > 0 {
            RemoveJobResult { removed_job: Some(jobs.remove(0)) }
        } else {
            RemoveJobResult { removed_job: None }
        }
    }
}

/// The statement that removes a job. The stored function gives a row of nulls
/// where no job has the key: the statement leaves that row out, so that
/// nothing is aggregated.
pub open spec fn remove_job_statement(schema: Seq<char>) -> Seq<char> {
    "select json_agg(r)::text removed_job from "@ + schema
        + ".remove_job($1::text) r where r.id is not null"@
}

/// Removes the job that was enqueued under the key.
pub fn remove_job(schema: &Schema, job_key: String) -> (query: Query)
    ensures
        query.statement@ == remove_job_statement(schema@),
        query.arguments.deep_view() == seq![ArgumentView::Text(Some(job_key@))],
{
    let statement = call_statement(
        "select json_agg(r)::text removed_job from ",
        schema,
        ".remove_job($1::text) r where r.id is not null",
    );
    let mut arguments: Vec<Argument> = Vec::new();
    arguments.push(Argument::Text(Some(job_key)));
    let query = Query { statement, arguments };
    assert(query.arguments.deep_view() =~= seq![ArgumentView::Text(Some(job_key@))]);
    query
}

} // verus!
