//! Reading the columns of a row that the database returned.
//!
//! A row is a value of the driver. What it holds is known by a name only:
//! [`row_cells`]. A read succeeds exactly where the row holds, under the name
//! asked for, a cell that the type asked for can take, and it then gives what
//! that cell holds.

use crate::models::job_model::Timestamp;
use vstd::prelude::*;

verus! {

/// A row of a query's result.
#[verifier::external_type_specification]
#[verifier::external_body]
pub struct ExRow(tokio_postgres::Row);

/// The driver's error.
#[verifier::external_type_specification]
#[verifier::external_body]
pub struct ExDriverError(tokio_postgres::Error);

/// The types of column that the library reads.
pub enum CellKind {
    /// `bigint`.
    Bigint,
    /// `integer`.
    Integer,
    /// A text.
    Text,
    /// `timestamptz`.
    Timestamp,
    /// `json` or `jsonb`.
    Json,
}

/// What a row holds in one column.
pub enum Cell {
    /// Null, in a column of the given type.
    Null(CellKind),
    /// A `bigint`.
    Bigint(i64),
    /// An `integer`.
    Integer(i32),
    /// A text.
    Text(Seq<char>),
    /// A `timestamptz`.
    Timestamp(Timestamp),
    /// A JSON document.
    Json(serde_json::Value),
}

/// What a row holds, under each name by which the driver finds one of its
/// columns: null, or the value that the driver decodes by the column's type.
/// A column of another type, or one whose bytes the driver cannot decode, has
/// no cell.
pub uninterp spec fn row_cells(row: tokio_postgres::Row) -> Map<Seq<char>, Cell>;

/// The type of the column that a cell stands in.
pub open spec fn kind_of(cell: Cell) -> CellKind {
    match cell {
        Cell::Null(kind) => kind,
        Cell::Bigint(_) => CellKind::Bigint,
        Cell::Integer(_) => CellKind::Integer,
        Cell::Text(_) => CellKind::Text,
        Cell::Timestamp(_) => CellKind::Timestamp,
        Cell::Json(_) => CellKind::Json,
    }
}

/// Whether `row` can be read under `column` as a value of type `kind`: it
/// holds a cell of that type there, and one that is not null unless null is
/// asked for as well.
pub open spec fn readable(
    row: tokio_postgres::Row,
    column: Seq<char>,
    kind: CellKind,
    nullable: bool,
) -> bool {
    let cells = row_cells(row);
    &&& cells.contains_key(column)
    &&& kind_of(cells[column]) == kind
    &&& nullable || !(cells[column] is Null)
}

/// The cell that stands for a text that may be null.
pub open spec fn text_cell(text: Option<String>) -> Cell {
    match text {
        Some(text) => Cell::Text(text@),
        None => Cell::Null(CellKind::Text),
    }
}

/// The cell that stands for a moment that may be null.
pub open spec fn timestamp_cell(moment: Option<Timestamp>) -> Cell {
    match moment {
        Some(moment) => Cell::Timestamp(moment),
        None => Cell::Null(CellKind::Timestamp),
    }
}

/// The cell that stands for a JSON document that may be null.
pub open spec fn json_cell(document: Option<serde_json::Value>) -> Cell {
    match document {
        Some(document) => Cell::Json(document),
        None => Cell::Null(CellKind::Json),
    }
}

/// Calls `tokio_postgres::Row::try_get` for an `i64`. The driver finds the
/// column by its name, takes it only where it is a `bigint`, and refuses
/// null. The read succeeds exactly where the row holds such a number under
/// that name, and gives that number.
#[verifier::external_body]
pub(crate) fn row_bigint(row: &tokio_postgres::Row, column: &str) -> (value: Result<
    i64,
    tokio_postgres::Error,
>)
    ensures
        value is Ok <==> readable(*row, column@, CellKind::Bigint, false),
        value matches Ok(number) ==> row_cells(*row)[column@] == Cell::Bigint(number),
{
    row.try_get(column)
}

/// Calls `tokio_postgres::Row::try_get` for an `i32`. The driver finds the
/// column by its name, takes it only where it is an `integer`, and refuses
/// null. The read succeeds exactly where the row holds such a number under
/// that name, and gives that number.
#[verifier::external_body]
pub(crate) fn row_integer(row: &tokio_postgres::Row, column: &str) -> (value: Result<
    i32,
    tokio_postgres::Error,
>)
    ensures
        value is Ok <==> readable(*row, column@, CellKind::Integer, false),
        value matches Ok(number) ==> row_cells(*row)[column@] == Cell::Integer(number),
{
    row.try_get(column)
}

/// Calls `tokio_postgres::Row::try_get` for a `String`. The driver finds the
/// column by its name, takes it only where it is of a text type, and refuses
/// null. The read succeeds exactly where the row holds a text under that
/// name, and gives that text.
#[verifier::external_body]
pub(crate) fn row_text(row: &tokio_postgres::Row, column: &str) -> (value: Result<
    String,
    tokio_postgres::Error,
>)
    ensures
        value is Ok <==> readable(*row, column@, CellKind::Text, false),
        value matches Ok(text) ==> row_cells(*row)[column@] == Cell::Text(text@),
{
    row.try_get(column)
}

/// Calls `tokio_postgres::Row::try_get` for an `Option<String>`. As for a
/// `String`, but null is taken and gives `None`.
#[verifier::external_body]
pub(crate) fn row_nullable_text(row: &tokio_postgres::Row, column: &str) -> (value: Result<
    Option<String>,
    tokio_postgres::Error,
>)
    ensures
        value is Ok <==> readable(*row, column@, CellKind::Text, true),
        value matches Ok(text) ==> row_cells(*row)[column@] == text_cell(text),
{
    row.try_get(column)
}

/// Calls `tokio_postgres::Row::try_get` for a `serde_json::Value`. The driver
/// finds the column by its name, takes it only where it is `json` or `jsonb`,
/// and refuses null. The read succeeds exactly where the row holds a document
/// under that name, and gives that document.
#[verifier::external_body]
pub(crate) fn row_json(row: &tokio_postgres::Row, column: &str) -> (value: Result<
    serde_json::Value,
    tokio_postgres::Error,
>)
    ensures
        value is Ok <==> readable(*row, column@, CellKind::Json, false),
        value matches Ok(document) ==> row_cells(*row)[column@] == Cell::Json(document),
{
    row.try_get(column)
}

/// Calls `tokio_postgres::Row::try_get` for an `Option<serde_json::Value>`.
/// As for a `serde_json::Value`, but null is taken and gives `None`.
#[verifier::external_body]
pub(crate) fn row_nullable_json(row: &tokio_postgres::Row, column: &str) -> (value: Result<
    Option<serde_json::Value>,
    tokio_postgres::Error,
>)
    ensures
        value is Ok <==> readable(*row, column@, CellKind::Json, true),
        value matches Ok(document) ==> row_cells(*row)[column@] == json_cell(document),
{
    row.try_get(column)
}

/// Calls `tokio_postgres::Row::try_get` for a `chrono::DateTime<Utc>`, and
/// `chrono::DateTime::timestamp` and `timestamp_subsec_nanos` on what it
/// gives, to hand the moment out as seconds and nanoseconds. The driver finds
/// the column by its name, takes it only where it is a `timestamptz`, and
/// refuses null. The read succeeds exactly where the row holds a moment under
/// that name, and gives that moment.
#[verifier::external_body]
pub(crate) fn row_timestamp(row: &tokio_postgres::Row, column: &str) -> (value: Result<
    Timestamp,
    tokio_postgres::Error,
>)
    ensures
        value is Ok <==> readable(*row, column@, CellKind::Timestamp, false),
        value matches Ok(moment) ==> row_cells(*row)[column@] == Cell::Timestamp(moment),
{
    let moment: chrono::DateTime<chrono::Utc> = row.try_get(column)?;
    Ok(Timestamp { seconds: moment.timestamp(), nanoseconds: moment.timestamp_subsec_nanos() })
}

/// As [`row_timestamp`], for an `Option<chrono::DateTime<Utc>>`: null is
/// taken and gives `None`.
#[verifier::external_body]
pub(crate) fn row_nullable_timestamp(row: &tokio_postgres::Row, column: &str) -> (value: Result<
    Option<Timestamp>,
    tokio_postgres::Error,
>)
    ensures
        value is Ok <==> readable(*row, column@, CellKind::Timestamp, true),
        value matches Ok(moment) ==> row_cells(*row)[column@] == timestamp_cell(moment),
{
    let moment: Option<chrono::DateTime<chrono::Utc>> = row.try_get(column)?;
    Ok(
        moment.map(
            |m| Timestamp { seconds: m.timestamp(), nanoseconds: m.timestamp_subsec_nanos() },
        ),
    )
}

/// Calls `to_string` on the driver's error, for the text that the driver
/// gives it.
#[verifier::external_body]
pub(crate) fn driver_error_text(error: &tokio_postgres::Error) -> (text: String) {
    error.to_string()
}

} // verus!
