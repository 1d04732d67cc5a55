//! Failures of the connection pool, and the error each one ends with.

use super::{one_text, text_detail, HttpError, HttpErrorView, INTERNAL_SERVER_ERROR};
use vstd::prelude::*;

verus! {

/// Why the pool handed out no connection.
#[derive(Debug)]
pub enum PoolError {
    /// No connection came free, or none could be made, in the time allowed.
    Timeout,
    /// The database refused: the text is what the driver reported.
    Backend(String),
    /// The pool has been closed.
    Closed,
    /// The pool was built without a runtime to wait on.
    NoRuntimeSpecified,
    /// The hook that runs on a new connection failed.
    PostCreateHook,
    /// The hook that runs before a connection is reused failed.
    PreRecycleHook,
    /// The hook that runs after a connection is reused failed.
    PostRecycleHook,
}

/// The short code that tells the client how the pool failed.
pub open spec fn pool_code(error: PoolError) -> Seq<char> {
    match error {
        PoolError::Timeout => "POLTM"@,
        PoolError::Backend(_) => "POLBK"@,
        PoolError::Closed => "POLCL"@,
        PoolError::NoRuntimeSpecified => "POLNR"@,
        PoolError::PostCreateHook => "POLCH"@,
        PoolError::PreRecycleHook => "POLEH"@,
        PoolError::PostRecycleHook => "POLOH"@,
    }
}

/// The error a request ends with when the pool fails. The driver's text is
/// shown only where `debug` is set, and only for a failure of the database.
pub open spec fn pool_response(error: PoolError, debug: bool) -> HttpErrorView {
    HttpErrorView {
        http_code: INTERNAL_SERVER_ERROR,
        err_code: pool_code(error),
        data: match error {
            PoolError::Backend(raw) if debug => one_text("raw"@, raw@),
            _ => None,
        },
    }
}

impl HttpError {
    /// Every failure of the pool ends the request with status 500 and a code of
    /// its own. A debug build adds the driver's text under `raw`; any other
    /// build keeps it from the client.
    pub fn from_pool_error(pool_error: PoolError, debug: bool) -> (error: HttpError)
        ensures
            error.deep_view() == pool_response(pool_error, debug),
    {
        match pool_error {
            PoolError::Timeout => HttpError::internal_server_error("POLTM", None),
            PoolError::Backend(raw) => {
                if debug {
                    HttpError::internal_server_error("POLBK", text_detail("raw", raw))
                } else {
                    HttpError::internal_server_error("POLBK", None)
                }
            },
            PoolError::Closed => HttpError::internal_server_error("POLCL", None),
            PoolError::NoRuntimeSpecified => HttpError::internal_server_error("POLNR", None),
            PoolError::PostCreateHook => HttpError::internal_server_error("POLCH", None),
            PoolError::PreRecycleHook => HttpError::internal_server_error("POLEH", None),
            PoolError::PostRecycleHook => HttpError::internal_server_error("POLOH", None),
        }
    }
}

} // verus!
