//! Reading one column of a row: the value that the row holds, where it holds
//! one of the type asked for, and else the failure to read it, which names
//! the column.

use super::row::{
    driver_error_text, json_cell, readable, row_bigint, row_cells, row_integer, row_json,
    row_nullable_json, row_nullable_text, row_nullable_timestamp, row_text, row_timestamp,
    text_cell, timestamp_cell, Cell, CellKind,
};
use super::RepositoryError;
use crate::models::job_model::Timestamp;
use vstd::prelude::*;

verus! {

/// Whether `error` says that the column `column` could not be read.
pub open spec fn column_failed(error: RepositoryError, column: Seq<char>) -> bool {
    error matches RepositoryError::MappingError { column: Some(name), .. } && name@ == column
}

/// What one read of a column comes to: the value, or the failure to read the
/// column, with the driver's text.
pub fn column<T>(read: Result<T, tokio_postgres::Error>, name: &str) -> (value: Result<
    T,
    RepositoryError,
>)
    ensures
        match read {
            Ok(v) => value == Ok::<T, RepositoryError>(v),
            Err(_) => value matches Err(error) && column_failed(error, name@),
        },
{
    match read {
        Ok(v) => Ok(v),
        Err(error) => Err(
            RepositoryError::MappingError {
                column: Some(name.to_owned()),
                raw: driver_error_text(&error),
            },
        ),
    }
}

/// Reads a `bigint` that is not null.
pub fn bigint(row: &tokio_postgres::Row, name: &str) -> (value: Result<i64, RepositoryError>)
    ensures
        match value {
            Ok(number) => {
                &&& readable(*row, name@, CellKind::Bigint, false)
                &&& row_cells(*row)[name@] == Cell::Bigint(number)
            },
            Err(error) => {
                &&& !readable(*row, name@, CellKind::Bigint, false)
                &&& column_failed(error, name@)
            },
        },
{
    column(row_bigint(row, name), name)
}

/// Reads an `integer` that is not null.
pub fn integer(row: &tokio_postgres::Row, name: &str) -> (value: Result<i32, RepositoryError>)
    ensures
        match value {
            Ok(number) => {
                &&& readable(*row, name@, CellKind::Integer, false)
                &&& row_cells(*row)[name@] == Cell::Integer(number)
            },
            Err(error) => {
                &&& !readable(*row, name@, CellKind::Integer, false)
                &&& column_failed(error, name@)
            },
        },
{
    column(row_integer(row, name), name)
}

/// Reads a text that is not null.
pub fn text(row: &tokio_postgres::Row, name: &str) -> (value: Result<String, RepositoryError>)
    ensures
        match value {
            Ok(text) => {
                &&& readable(*row, name@, CellKind::Text, false)
                &&& row_cells(*row)[name@] == Cell::Text(text@)
            },
            Err(error) => {
                &&& !readable(*row, name@, CellKind::Text, false)
                &&& column_failed(error, name@)
            },
        },
{
    column(row_text(row, name), name)
}

/// Reads a text that may be null.
pub fn nullable_text(row: &tokio_postgres::Row, name: &str) -> (value: Result<
    Option<String>,
    RepositoryError,
>)
    ensures
        match value {
            Ok(text) => {
                &&& readable(*row, name@, CellKind::Text, true)
                &&& row_cells(*row)[name@] == text_cell(text)
            },
            Err(error) => {
                &&& !readable(*row, name@, CellKind::Text, true)
                &&& column_failed(error, name@)
            },
        },
{
    column(row_nullable_text(row, name), name)
}

/// Reads a JSON document that is not null.
pub fn json(row: &tokio_postgres::Row, name: &str) -> (value: Result<
    serde_json::Value,
    RepositoryError,
>)
    ensures
        match value {
            Ok(document) => {
                &&& readable(*row, name@, CellKind::Json, false)
                &&& row_cells(*row)[name@] == Cell::Json(document)
            },
            Err(error) => {
                &&& !readable(*row, name@, CellKind::Json, false)
                &&& column_failed(error, name@)
            },
        },
{
    column(row_json(row, name), name)
}

/// Reads a JSON document that may be null.
pub fn nullable_json(row: &tokio_postgres::Row, name: &str) -> (value: Result<
    Option<serde_json::Value>,
    RepositoryError,
>)
    ensures
        match value {
            Ok(document) => {
                &&& readable(*row, name@, CellKind::Json, true)
                &&& row_cells(*row)[name@] == json_cell(document)
            },
            Err(error) => {
                &&& !readable(*row, name@, CellKind::Json, true)
                &&& column_failed(error, name@)
            },
        },
{
    column(row_nullable_json(row, name), name)
}

/// Reads a moment that is not null.
pub fn timestamp(row: &tokio_postgres::Row, name: &str) -> (value: Result<
    Timestamp,
    RepositoryError,
>)
    ensures
        match value {
            Ok(moment) => {
                &&& readable(*row, name@, CellKind::Timestamp, false)
                &&& row_cells(*row)[name@] == Cell::Timestamp(moment)
            },
            Err(error) => {
                &&& !readable(*row, name@, CellKind::Timestamp, false)
                &&& column_failed(error, name@)
            },
        },
{
    column(row_timestamp(row, name), name)
}

/// Reads a moment that may be null.
pub fn nullable_timestamp(row: &tokio_postgres::Row, name: &str) -> (value: Result<
    Option<Timestamp>,
    RepositoryError,
>)
    ensures
        match value {
            Ok(moment) => {
                &&& readable(*row, name@, CellKind::Timestamp, true)
                &&& row_cells(*row)[name@] == timestamp_cell(moment)
            },
            Err(error) => {
                &&& !readable(*row, name@, CellKind::Timestamp, true)
                &&& column_failed(error, name@)
            },
        },
{
    column(row_nullable_timestamp(row, name), name)
}

} // verus!
