//! A statement and the values that go with it.

use crate::models::job_model::Timestamp;
use vstd::prelude::*;

verus! {

/// One value that is sent along with a statement. Its place in the list is
/// the number after the `$`, counting from one; its variant is the type that
/// the statement casts that parameter to.
#[derive(Debug, PartialEq)]
pub enum Argument {
    /// For `text`.
    Text(Option<String>),
    /// For `integer`.
    Integer(Option<i32>),
    /// For `json`.
    Json(Option<serde_json::Value>),
    /// For `timestamptz`.
    Timestamp(Option<Timestamp>),
    /// For `bigint[]`.
    BigintList(Vec<i64>),
    /// For `text[]`.
    TextList(Option<Vec<String>>),
}

/// What an [`Argument`] holds.
pub enum ArgumentView {
    Text(Option<Seq<char>>),
    Integer(Option<i32>),
    Json(Option<serde_json::Value>),
    Timestamp(Option<Timestamp>),
    BigintList(Seq<i64>),
    TextList(Option<Seq<Seq<char>>>),
}

impl DeepView for Argument {
    type V = ArgumentView;

    open spec fn deep_view(&self) -> ArgumentView {
        match self {
            Argument::Text(text) => ArgumentView::Text(text.deep_view()),
            Argument::Integer(number) => ArgumentView::Integer(*number),
            Argument::Json(document) => ArgumentView::Json(*document),
            Argument::Timestamp(moment) => ArgumentView::Timestamp(*moment),
            Argument::BigintList(numbers) => ArgumentView::BigintList(numbers.deep_view()),
            Argument::TextList(texts) => ArgumentView::TextList(texts.deep_view()),
        }
    }
}

/// One round trip to the database: the text of the statement, and its
/// arguments in the order of their numbers.
#[derive(Debug, PartialEq)]
pub struct Query {
    pub statement: String,
    pub arguments: Vec<Argument>,
}

} // verus!
