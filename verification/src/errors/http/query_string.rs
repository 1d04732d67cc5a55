//! Query strings that could not be read, and the error each one ends with.

use super::{
    one_text, text_detail, BAD_REQUEST, ErrorField, ErrorValue, ErrorValueView, HttpError,
    HttpErrorView,
};
use vstd::prelude::*;

verus! {

/// Why a query string could not be read into the parameters of a request.
#[derive(Debug)]
pub enum QueryStringError {
    /// The parameters were read but do not fit: the text says why.
    Custom(String),
    /// The query string is malformed at the given position.
    Parse(String, usize),
    /// A value is of a kind that query strings cannot carry.
    Unsupported,
    /// An owned text is not UTF-8.
    FromUtf8 { valid_up_to: usize, error_len: Option<usize> },
    /// Reading failed below the parser.
    Io,
    /// A number could not be read: the text says why.
    ParseInt(String),
    /// A borrowed text is not UTF-8.
    Utf8 { valid_up_to: usize, error_len: Option<usize> },
}

/// The detail value for an optional length: the number, or null.
pub open spec fn length_value(error_len: Option<usize>) -> ErrorValueView {
    match error_len {
        Some(length) => ErrorValueView::Number(length as u64),
        None => ErrorValueView::Null,
    }
}

/// The detail that goes with text that is not UTF-8.
pub open spec fn invalid_utf8(valid_up_to: usize, error_len: Option<usize>) -> Option<
    Seq<(Seq<char>, ErrorValueView)>,
> {
    Some(
        seq![
            ("message"@, ErrorValueView::Text("Invalid UTF8 string"@)),
            ("validUpTo"@, ErrorValueView::Number(valid_up_to as u64)),
            ("length"@, length_value(error_len)),
        ],
    )
}

/// The short code that tells the client which kind of failure it was.
pub open spec fn query_string_code(error: QueryStringError) -> Seq<char> {
    match error {
        QueryStringError::Custom(_) => "IVQCS"@,
        QueryStringError::Parse(_, _) => "IVQPS"@,
        QueryStringError::Unsupported => "IVQUS"@,
        QueryStringError::FromUtf8 { .. } => "IVQU8"@,
        QueryStringError::Io => "IVQIO"@,
        QueryStringError::ParseInt(_) => "IVQPI"@,
        QueryStringError::Utf8 { .. } => "IVQU8"@,
    }
}

/// The detail that tells the client what was wrong with the query string.
pub open spec fn query_string_detail(error: QueryStringError) -> Option<
    Seq<(Seq<char>, ErrorValueView)>,
> {
    match error {
        QueryStringError::Custom(message) => one_text("message"@, message@),
        QueryStringError::Parse(message, pos) => Some(
            seq![
                ("message"@, ErrorValueView::Text(message@)),
                ("pos"@, ErrorValueView::Number(pos as u64)),
            ],
        ),
        QueryStringError::Unsupported => None,
        QueryStringError::FromUtf8 { valid_up_to, error_len } => invalid_utf8(
            valid_up_to,
            error_len,
        ),
        QueryStringError::Io => None,
        QueryStringError::ParseInt(message) => one_text("message"@, message@),
        QueryStringError::Utf8 { valid_up_to, error_len } => invalid_utf8(valid_up_to, error_len),
    }
}

/// The error a request ends with when its query string could not be read.
pub open spec fn query_string_response(error: QueryStringError) -> HttpErrorView {
    HttpErrorView {
        http_code: BAD_REQUEST,
        err_code: query_string_code(error),
        data: query_string_detail(error),
    }
}

fn field(name: &str, value: ErrorValue) -> (field: ErrorField)
    ensures
        field.deep_view() == (name@, value.deep_view()),
{
    ErrorField { name: name.to_owned(), value }
}

fn invalid_utf8_detail(valid_up_to: usize, error_len: Option<usize>) -> (data: Option<
    Vec<ErrorField>,
>)
    ensures
        data.deep_view() == invalid_utf8(valid_up_to, error_len),
{
    let length = match error_len {
        Some(length) => ErrorValue::Number(length as u64),
        None => ErrorValue::Null,
    };
    let mut fields: Vec<ErrorField> = Vec::new();
    fields.push(field("message", ErrorValue::Text("Invalid UTF8 string".to_owned())));
    fields.push(field("validUpTo", ErrorValue::Number(valid_up_to as u64)));
    fields.push(field("length", length));
    let data = Some(fields);
    assert(data.deep_view().unwrap() =~= invalid_utf8(valid_up_to, error_len).unwrap());
    data
}

impl HttpError {
    /// Every query string that cannot be read ends the request with status 400,
    /// before the database is asked anything. The code names the kind of
    /// failure, and the detail carries what the parser reported.
    pub fn from_query_string_error(qs_error: QueryStringError) -> (error: HttpError)
        ensures
            error.deep_view() == query_string_response(qs_error),
    {
        match qs_error {
            QueryStringError::Custom(message) => HttpError::bad_request(
                "IVQCS",
                text_detail("message", message),
            ),
            QueryStringError::Parse(message, pos) => {
                let mut fields: Vec<ErrorField> = Vec::new();
                fields.push(field("message", ErrorValue::Text(message)));
                fields.push(field("pos", ErrorValue::Number(pos as u64)));
                let data = Some(fields);
                assert(data.deep_view().unwrap() =~= query_string_detail(qs_error).unwrap());
                HttpError::bad_request("IVQPS", data)
            },
            QueryStringError::Unsupported => HttpError::bad_request("IVQUS", None),
            QueryStringError::FromUtf8 { valid_up_to, error_len } => HttpError::bad_request(
                "IVQU8",
                invalid_utf8_detail(valid_up_to, error_len),
            ),
            QueryStringError::Io => HttpError::bad_request("IVQIO", None),
            QueryStringError::ParseInt(message) => HttpError::bad_request(
                "IVQPI",
                text_detail("message", message),
            ),
            QueryStringError::Utf8 { valid_up_to, error_len } => HttpError::bad_request(
                "IVQU8",
                invalid_utf8_detail(valid_up_to, error_len),
            ),
        }
    }
}

} // verus!
