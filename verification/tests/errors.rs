use graphboard::errors::http::postgres::PoolError;
use graphboard::errors::http::query_string::QueryStringError;
use graphboard::errors::http::{text_detail, ErrorField, ErrorValue};
use graphboard::errors::HttpError;
use graphboard::repositories::RepositoryError;

fn shown(error: &HttpError) -> (u16, String, Option<Vec<(String, String)>>) {
    let data = error.data.as_ref().map(|fields| {
        fields
            .iter()
            .map(|field| {
                let value = match &field.value {
                    ErrorValue::Null => "null".to_string(),
                    ErrorValue::Number(n) => format!("{}", n),
                    ErrorValue::Text(text) => format!("{:?}", text),
                };
                (field.name.clone(), value)
            })
            .collect()
    });
    (error.http_code, error.err_code.clone(), data)
}

fn plain(status: u16, code: &str) -> (u16, String, Option<Vec<(String, String)>>) {
    (status, code.to_string(), None)
}

fn with(status: u16, code: &str, fields: &[(&str, &str)]) -> (u16, String, Option<Vec<(String, String)>>) {
    let fields = fields.iter().map(|(name, value)| (name.to_string(), value.to_string())).collect();
    (status, code.to_string(), Some(fields))
}

#[test]
fn constructors_set_the_status() {
    assert_eq!(shown(&HttpError::internal_server_error("A", None)), plain(500, "A"));
    assert_eq!(shown(&HttpError::not_found("B", None)), plain(404, "B"));
    assert_eq!(shown(&HttpError::bad_request("C", None)), plain(400, "C"));
    assert_eq!(HttpError::bad_request("C", None).status_code(), 400);
    assert_eq!(HttpError::not_found("B", None).status_code(), 404);
    assert_eq!(HttpError::internal_server_error("A", None).status_code(), 500);
}

#[test]
fn constructors_keep_the_detail() {
    let data = Some(vec![
        ErrorField { name: "n".to_string(), value: ErrorValue::Number(7) },
        ErrorField { name: "z".to_string(), value: ErrorValue::Null },
    ]);
    let error = HttpError::bad_request("C", data);
    assert_eq!(shown(&error), with(400, "C", &[("n", "7"), ("z", "null")]));
}

#[test]
fn text_detail_is_one_field() {
    let error = HttpError::internal_server_error("X", text_detail("raw", "boom".to_string()));
    assert_eq!(shown(&error), with(500, "X", &[("raw", "\"boom\"")]));
}

#[test]
fn a_code_alone_is_an_internal_error() {
    assert_eq!(shown(&HttpError::from("OOPS")), plain(500, "OOPS"));
}

#[test]
fn not_found_is_404() {
    assert_eq!(shown(&HttpError::from_repository_error(RepositoryError::NotFound, false)), plain(404, "NTFND"));
    assert_eq!(shown(&HttpError::from_repository_error(RepositoryError::NotFound, true)), plain(404, "NTFND"));
}

#[test]
fn driver_errors_hide_their_text_outside_debug() {
    let error = HttpError::from_repository_error(RepositoryError::PGError("db down".to_string()), false);
    assert_eq!(shown(&error), plain(500, "PGERR"));
}

#[test]
fn driver_errors_show_their_text_in_debug() {
    let error = HttpError::from_repository_error(RepositoryError::PGError("db down".to_string()), true);
    assert_eq!(shown(&error), with(500, "PGERR", &[("raw", "\"db down\"")]));
}

#[test]
fn mapping_errors_hide_their_text_outside_debug() {
    let error = HttpError::from_repository_error(RepositoryError::MappingError { column: None, raw: "bad json".to_string() }, false);
    assert_eq!(shown(&error), plain(500, "MPERR"));
}

#[test]
fn mapping_errors_show_their_text_in_debug() {
    let error = HttpError::from_repository_error(RepositoryError::MappingError { column: None, raw: "bad json".to_string() }, true);
    assert_eq!(shown(&error), with(500, "MPERR", &[("raw", "\"bad json\"")]));
}

#[test]
fn unread_columns_are_mapping_errors() {
    let error = RepositoryError::MappingError {
        column: Some("run_at".to_string()),
        raw: "invalid column `run_at`".to_string(),
    };
    assert_eq!(shown(&HttpError::from_repository_error(error, false)), plain(500, "MPERR"));
    let error = RepositoryError::MappingError {
        column: Some("run_at".to_string()),
        raw: "invalid column `run_at`".to_string(),
    };
    assert_eq!(
        shown(&HttpError::from_repository_error(error, true)),
        with(500, "MPERR", &[("raw", "\"invalid column `run_at`\"")])
    );
}

#[test]
fn pool_errors_have_a_code_each() {
    for debug in [false, true] {
        assert_eq!(shown(&HttpError::from_pool_error(PoolError::Timeout, debug)), plain(500, "POLTM"));
        assert_eq!(shown(&HttpError::from_pool_error(PoolError::Closed, debug)), plain(500, "POLCL"));
        assert_eq!(shown(&HttpError::from_pool_error(PoolError::NoRuntimeSpecified, debug)), plain(500, "POLNR"));
        assert_eq!(shown(&HttpError::from_pool_error(PoolError::PostCreateHook, debug)), plain(500, "POLCH"));
        assert_eq!(shown(&HttpError::from_pool_error(PoolError::PreRecycleHook, debug)), plain(500, "POLEH"));
        assert_eq!(shown(&HttpError::from_pool_error(PoolError::PostRecycleHook, debug)), plain(500, "POLOH"));
    }
}

#[test]
fn pool_backend_errors_show_their_text_in_debug_only() {
    let error = HttpError::from_pool_error(PoolError::Backend("refused".to_string()), false);
    assert_eq!(shown(&error), plain(500, "POLBK"));
    let error = HttpError::from_pool_error(PoolError::Backend("refused".to_string()), true);
    assert_eq!(shown(&error), with(500, "POLBK", &[("raw", "\"refused\"")]));
}

#[test]
fn pool_errors_pass_through_the_repository() {
    let error = HttpError::from_repository_error(RepositoryError::PoolError(PoolError::Timeout), false);
    assert_eq!(shown(&error), plain(500, "POLTM"));
    let error = HttpError::from_repository_error(
        RepositoryError::PoolError(PoolError::Backend("refused".to_string())),
        true,
    );
    assert_eq!(shown(&error), with(500, "POLBK", &[("raw", "\"refused\"")]));
}

#[test]
fn unfit_parameters_are_a_bad_request() {
    let error = HttpError::from_query_string_error(QueryStringError::Custom(
        "unknown variant `name`, expected `taskIdentifier` or `runAt`".to_string(),
    ));
    assert_eq!(
        shown(&error),
        with(400, "IVQCS", &[("message", "\"unknown variant `name`, expected `taskIdentifier` or `runAt`\"")])
    );
}

#[test]
fn malformed_query_strings_tell_the_position() {
    let error = HttpError::from_query_string_error(QueryStringError::Parse("unexpected ]".to_string(), 14));
    assert_eq!(shown(&error), with(400, "IVQPS", &[("message", "\"unexpected ]\""), ("pos", "14")]));
}

#[test]
fn unsupported_and_io_carry_no_detail() {
    assert_eq!(shown(&HttpError::from_query_string_error(QueryStringError::Unsupported)), plain(400, "IVQUS"));
    assert_eq!(shown(&HttpError::from_query_string_error(QueryStringError::Io)), plain(400, "IVQIO"));
}

#[test]
fn unreadable_numbers_tell_why() {
    let error = HttpError::from_query_string_error(QueryStringError::ParseInt("invalid digit found in string".to_string()));
    assert_eq!(shown(&error), with(400, "IVQPI", &[("message", "\"invalid digit found in string\"")]));
}

#[test]
fn invalid_utf8_tells_where() {
    let expected = with(
        400,
        "IVQU8",
        &[("message", "\"Invalid UTF8 string\""), ("validUpTo", "3"), ("length", "1")],
    );
    let error = HttpError::from_query_string_error(QueryStringError::Utf8 { valid_up_to: 3, error_len: Some(1) });
    assert_eq!(shown(&error), expected);
    let error = HttpError::from_query_string_error(QueryStringError::FromUtf8 { valid_up_to: 3, error_len: Some(1) });
    assert_eq!(shown(&error), expected);
}

#[test]
fn invalid_utf8_at_the_end_has_no_length() {
    let error = HttpError::from_query_string_error(QueryStringError::Utf8 { valid_up_to: 0, error_len: None });
    assert_eq!(
        shown(&error),
        with(400, "IVQU8", &[("message", "\"Invalid UTF8 string\""), ("validUpTo", "0"), ("length", "null")])
    );
}

#[test]
fn codes_do_not_depend_on_the_build() {
    let errors = || {
        vec![
            RepositoryError::NotFound,
            RepositoryError::PGError("a".to_string()),
            RepositoryError::MappingError { column: None, raw: "b".to_string() },
            RepositoryError::PoolError(PoolError::Backend("c".to_string())),
            RepositoryError::PoolError(PoolError::Closed),
        ]
    };
    for (debug, plain_build) in errors().into_iter().zip(errors()) {
        let debug = HttpError::from_repository_error(debug, true);
        let plain_build = HttpError::from_repository_error(plain_build, false);
        assert_eq!(debug.err_code, plain_build.err_code);
        assert_eq!(debug.http_code, plain_build.http_code);
        assert!(plain_build.data.is_none());
    }
}
