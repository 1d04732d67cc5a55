//! The error a request ends with: a status, a short code, and optional detail.

pub mod postgres;
pub mod query_string;

use vstd::prelude::*;

verus! {

/// One value of the detail that goes with an error.
#[derive(Clone, Debug)]
pub enum ErrorValue {
    Null,
    Number(u64),
    Text(String),
}

/// What an [`ErrorValue`] holds.
pub enum ErrorValueView {
    Null,
    Number(u64),
    Text(Seq<char>),
}

impl DeepView for ErrorValue {
    type V = ErrorValueView;

    open spec fn deep_view(&self) -> ErrorValueView {
        match self {
            ErrorValue::Null => ErrorValueView::Null,
            ErrorValue::Number(n) => ErrorValueView::Number(*n),
            ErrorValue::Text(text) => ErrorValueView::Text(text@),
        }
    }
}

/// One named field of the detail that goes with an error.
#[derive(Clone, Debug)]
pub struct ErrorField {
    pub name: String,
    pub value: ErrorValue,
}

impl DeepView for ErrorField {
    type V = (Seq<char>, ErrorValueView);

    open spec fn deep_view(&self) -> (Seq<char>, ErrorValueView) {
        (self.name@, self.value.deep_view())
    }
}

/// The status of a request that failed inside the server.
pub const INTERNAL_SERVER_ERROR: u16 = 500;

/// The status of a request for something that does not exist.
pub const NOT_FOUND: u16 = 404;

/// The status of a request that could not be read.
pub const BAD_REQUEST: u16 = 400;

/// An error as the client sees it.
#[derive(Debug)]
pub struct HttpError {
    pub http_code: u16,
    pub err_code: String,
    pub data: Option<Vec<ErrorField>>,
}

/// What an [`HttpError`] holds.
pub struct HttpErrorView {
    pub http_code: u16,
    pub err_code: Seq<char>,
    pub data: Option<Seq<(Seq<char>, ErrorValueView)>>,
}

impl DeepView for HttpError {
    type V = HttpErrorView;

    open spec fn deep_view(&self) -> HttpErrorView {
        HttpErrorView {
            http_code: self.http_code,
            err_code: self.err_code@,
            data: self.data.deep_view(),
        }
    }
}

/// The detail with the one field `name`, holding `text`.
pub open spec fn one_text(name: Seq<char>, text: Seq<char>) -> Option<
    Seq<(Seq<char>, ErrorValueView)>,
> {
    Some(seq![(name, ErrorValueView::Text(text))])
}

/// Builds the detail with the one field `name`, holding `text`.
pub fn text_detail(name: &str, text: String) -> (data: Option<Vec<ErrorField>>)
    ensures
        data.deep_view() == one_text(name@, text@),
{
    let mut fields: Vec<ErrorField> = Vec::new();
    fields.push(ErrorField { name: name.to_owned(), value: ErrorValue::Text(text) });
    let data = Some(fields);
    assert(data.deep_view().unwrap() =~= one_text(name@, text@).unwrap());
    data
}

impl HttpError {
    /// An error of status 500.
    pub fn internal_server_error(err_code: &str, data: Option<Vec<ErrorField>>) -> (error:
        HttpError)
        ensures
            error.deep_view() == (HttpErrorView {
                http_code: INTERNAL_SERVER_ERROR,
                err_code: err_code@,
                data: data.deep_view(),
            }),
    {
        HttpError { http_code: INTERNAL_SERVER_ERROR, err_code: err_code.to_owned(), data }
    }

    /// An error of status 404.
    pub fn not_found(err_code: &str, data: Option<Vec<ErrorField>>) -> (error: HttpError)
        ensures
            error.deep_view() == (HttpErrorView {
                http_code: NOT_FOUND,
                err_code: err_code@,
                data: data.deep_view(),
            }),
    {
        HttpError { http_code: NOT_FOUND, err_code: err_code.to_owned(), data }
    }

    /// An error of status 400.
    pub fn bad_request(err_code: &str, data: Option<Vec<ErrorField>>) -> (error: HttpError)
        ensures
            error.deep_view() == (HttpErrorView {
                http_code: BAD_REQUEST,
                err_code: err_code@,
                data: data.deep_view(),
            }),
    {
        HttpError { http_code: BAD_REQUEST, err_code: err_code.to_owned(), data }
    }

    /// The status that the response carries.
    pub fn status_code(&self) -> (code: u16)
        ensures
            code == self.http_code,
    {
        self.http_code
    }
}

impl<'a> From<&'a str> for HttpError {
    /// An error of status 500 that carries the code alone.
    fn from(from: &'a str) -> (error: HttpError)
        ensures
            error.deep_view() == (HttpErrorView {
                http_code: INTERNAL_SERVER_ERROR,
                err_code: from@,
                data: None,
            }),
    {
        HttpError { http_code: INTERNAL_SERVER_ERROR, err_code: from.to_owned(), data: None }
    }
}

/// No specification can make the text that an error holds, so the conversion
/// is stated on `from` itself, over what the error holds, and not here.
impl<'a> vstd::std_specs::convert::FromSpecImpl<&'a str> for HttpError {
    open spec fn obeys_from_spec() -> bool {
        false
    }

    open spec fn from_spec(from: &'a str) -> HttpError {
        arbitrary()
    }
}

} // verus!
