//! Ordering, paging, and the failures of the repository.

pub mod columns;
pub mod job_repository;
pub mod pattern;
pub mod query;
pub mod row;

pub use job_repository::{
    add_job, complete_jobs, find_jobs, job_order, permanently_fail_jobs, remove_job,
    reschedule_jobs,
    CompleteJobsResult, FindJobsFilters, FindJobsParams, FindJobsResult, JobOrderField,
    PermanentlyFailJobsResult, RemoveJobResult, RescheduleJobsData, RescheduleJobsResult,
};
pub use query::{Argument, Query};

use crate::errors::http::postgres::{pool_response, PoolError};
use crate::errors::http::{
    one_text, text_detail, ErrorField, ErrorValueView, HttpError, HttpErrorView,
    INTERNAL_SERVER_ERROR, NOT_FOUND,
};
use crate::text::text_eq;
use vstd::prelude::*;

verus! {

/// Why a call of the repository failed.
#[derive(Debug)]
pub enum RepositoryError {
    /// What was asked for does not exist.
    NotFound,
    /// The statement could not be run: the text is the driver's.
    PGError(String),
    /// The statement ran, but what came back could not be read as jobs.
    /// Where it was a column of the row that could not be read, `column` is
    /// its name and `raw` the driver's text; where it was the JSON text of the
    /// jobs that could not be decoded, there is no column and `raw` is the
    /// decoder's text.
    MappingError { column: Option<String>, raw: String },
    /// No connection could be had from the pool.
    PoolError(PoolError),
}

/// The detail that goes with a text of the driver or the decoder: the text
/// under `raw` in a debug build, and nothing in any other.
pub open spec fn raw_detail(raw: Seq<char>, debug: bool) -> Option<
    Seq<(Seq<char>, ErrorValueView)>,
> {
    if debug {
        one_text("raw"@, raw)
    } else {
        None
    }
}

/// The error a request ends with when the repository fails. Each failure has
/// one status and one code; only the detail depends on the build.
pub open spec fn repository_response(error: RepositoryError, debug: bool) -> HttpErrorView {
    match error {
        RepositoryError::NotFound => HttpErrorView {
            http_code: NOT_FOUND,
            err_code: "NTFND"@,
            data: None,
        },
        RepositoryError::PGError(raw) => HttpErrorView {
            http_code: INTERNAL_SERVER_ERROR,
            err_code: "PGERR"@,
            data: raw_detail(raw@, debug),
        },
        RepositoryError::MappingError { raw, .. } => HttpErrorView {
            http_code: INTERNAL_SERVER_ERROR,
            err_code: "MPERR"@,
            data: raw_detail(raw@, debug),
        },
        RepositoryError::PoolError(pool_error) => pool_response(pool_error, debug),
    }
}

/// Outside a debug build no failure of the repository tells the client more
/// than its code: the texts of the driver, the decoder and the pool stay
/// inside.
pub proof fn lemma_detail_stays_inside(error: RepositoryError)
    ensures
        repository_response(error, false).data is None,
{
}

/// The code of a failure of the repository is the same in every build.
pub proof fn lemma_code_is_fixed(error: RepositoryError)
    ensures
        repository_response(error, true).err_code == repository_response(error, false).err_code,
        repository_response(error, true).http_code == repository_response(
            error,
            false,
        ).http_code,
{
}

/// Whatever the failure holds, the status is 404 for what is not there and 500
/// for everything else.
pub proof fn lemma_repository_status(error: RepositoryError, debug: bool)
    ensures
        repository_response(error, debug).http_code == (if error is NotFound {
            NOT_FOUND
        } else {
            INTERNAL_SERVER_ERROR
        }),
{
}

fn raw_data(raw: String, debug: bool) -> (data: Option<Vec<ErrorField>>)
    ensures
        data.deep_view() == raw_detail(raw@, debug),
{
    if debug {
        text_detail("raw", raw)
    } else {
        None
    }
}

impl HttpError {
    /// A job that is not there ends the request with status 404; every other
    /// failure of the repository ends it with status 500. A debug build adds
    /// the driver's or decoder's text under `raw`; any other build keeps it
    /// from the client.
    pub fn from_repository_error(error: RepositoryError, debug: bool) -> (http_error: HttpError)
        ensures
            http_error.deep_view() == repository_response(error, debug),
    {
        match error {
            RepositoryError::NotFound => HttpError::not_found("NTFND", None),
            RepositoryError::PGError(raw) => HttpError::internal_server_error(
                "PGERR",
                raw_data(raw, debug),
            ),
            RepositoryError::MappingError { raw, .. } => HttpError::internal_server_error(
                "MPERR",
                raw_data(raw, debug),
            ),
            RepositoryError::PoolError(pool_error) => HttpError::from_pool_error(
                pool_error,
                debug,
            ),
        }
    }
}

/// A direction of sorting, and the field to sort by.
#[derive(Clone, Debug, PartialEq)]
pub enum RepositoryOrder<Field> {
    Asc(Field),
    Desc(Field),
}

/// The order for a direction as a request writes it: `asc` or `desc`, in
/// lower case. No other word is a direction.
pub open spec fn order_of<Field>(direction: Seq<char>, field: Field) -> Option<
    RepositoryOrder<Field>,
> {
    if direction == "asc"@ {
        Some(RepositoryOrder::Asc(field))
    } else if direction == "desc"@ {
        Some(RepositoryOrder::Desc(field))
    } else {
        None
    }
}

impl<Field> RepositoryOrder<Field> {
    /// Reads the direction that a request names. A word that is not a
    /// direction gives nothing: it is for the caller to refuse the request.
    pub fn from_direction(direction: &str, field: Field) -> (order: Option<Self>)
        ensures
            order == order_of(direction@, field),
    {
        if text_eq(direction, "asc") {
            Some(RepositoryOrder::Asc(field))
        } else if text_eq(direction, "desc") {
            Some(RepositoryOrder::Desc(field))
        } else {
            None
        }
    }
}

/// A field that stands for one column. Only such fields reach the text of a
/// statement, never a name that a client sent.
pub trait ToSqlIdent {
    /// The name of the column.
    spec fn sql_ident_spec(&self) -> Seq<char>;

    fn sql_ident(&self) -> (ident: String)
        ensures
            ident@ == self.sql_ident_spec(),
    ;
}

/// What can be written after `order by`.
pub trait Order {
    /// Whether `text` is the ordering that `self` asks for.
    spec fn order_spec(&self, text: Seq<char>) -> bool;

    fn order(&self) -> (text: String)
        ensures
            self.order_spec(text@),
    ;
}

impl<Field: ToSqlIdent> Order for RepositoryOrder<Field> {
    /// The column, a space, and `asc` or `desc`.
    open spec fn order_spec(&self, text: Seq<char>) -> bool {
        match self {
            RepositoryOrder::Asc(field) => text == field.sql_ident_spec() + " asc"@,
            RepositoryOrder::Desc(field) => text == field.sql_ident_spec() + " desc"@,
        }
    }

    fn order(&self) -> (text: String) {
        match self {
            RepositoryOrder::Asc(field) => field.sql_ident().concat(" asc"),
            RepositoryOrder::Desc(field) => field.sql_ident().concat(" desc"),
        }
    }
}

impl<Field: Default> Default for RepositoryOrder<Field> {
    /// Ascending, by the field's own default.
    fn default() -> (order: Self)
        ensures
            order matches RepositoryOrder::Asc(field) && call_ensures(Field::default, (), field),
    {
        RepositoryOrder::Asc(Field::default())
    }
}

impl<Field: ToSqlIdent + Default> Order for Option<RepositoryOrder<Field>> {
    /// The ordering that was given; where none was, ascending by the default
    /// field.
    open spec fn order_spec(&self, text: Seq<char>) -> bool {
        match self {
            Some(order) => order.order_spec(text),
            None => exists|field: Field| #[trigger]
                call_ensures(Field::default, (), field) && text == field.sql_ident_spec()
                    + " asc"@,
        }
    }

    fn order(&self) -> (text: String) {
        if let Some(order) = self {
            return order.order();
        }
        let default_repo_order: RepositoryOrder<Field> = RepositoryOrder::default();
        default_repo_order.order()
    }
}

/// The page a client asks for. Both numbers are taken as they come: `limit`
/// and `offset` bring them into range.
#[derive(Clone, Copy, Debug, PartialEq, Eq, Structural)]
pub struct RepositoryPagination {
    pub items_per_page: Option<u64>,
    pub page: Option<u64>,
}

/// The number of items on a page where the client names none.
pub const DEFAULT_ITEMS_PER_PAGE: u64 = 20;

/// The largest number of items on a page.
pub const MAX_ITEMS_PER_PAGE: u64 = 100;

/// `value`, brought into the range from `low` to `high`.
pub open spec fn clamp(value: int, low: int, high: int) -> int {
    if value < low {
        low
    } else if value > high {
        high
    } else {
        value
    }
}

/// The number of rows to return: the items per page, 20 where none is given,
/// brought into the range from 1 to 100.
pub open spec fn limit_of(items_per_page: Option<u64>) -> int {
    match items_per_page {
        Some(items) => clamp(items as int, 1, MAX_ITEMS_PER_PAGE as int),
        None => DEFAULT_ITEMS_PER_PAGE as int,
    }
}

/// The number of rows to skip: the pages before the one asked for, each of
/// `limit` rows. Pages count from 1; page 0 is read as page 1.
pub open spec fn offset_of(page: Option<u64>, limit: int) -> int {
    match page {
        Some(page) => if page < 1 {
            0
        } else {
            (page - 1) * limit
        },
        None => 0,
    }
}

/// What can be written after `limit` and `offset`.
pub trait Pagination {
    /// The number of rows to return.
    spec fn limit_spec(&self) -> int;

    /// The number of rows to skip.
    spec fn offset_spec(&self) -> int;

    /// A page never holds fewer than 1 or more than 100 rows.
    fn limit(&self) -> (limit: u64)
        ensures
            limit == self.limit_spec(),
            1 <= limit <= MAX_ITEMS_PER_PAGE,
    ;

    /// Whether the offset can be held in 64 bits.
    fn offset_fits(&self) -> (fits: bool)
        ensures
            fits == (0 <= self.offset_spec() <= u64::MAX),
    ;

    fn offset(&self) -> (offset: u64)
        requires
            0 <= self.offset_spec() <= u64::MAX,
        ensures
            offset == self.offset_spec(),
    ;
}

impl Pagination for RepositoryPagination {
    open spec fn limit_spec(&self) -> int {
        limit_of(self.items_per_page)
    }

    open spec fn offset_spec(&self) -> int {
        offset_of(self.page, limit_of(self.items_per_page))
    }

    fn limit(&self) -> (limit: u64) {
        match self.items_per_page {
            Some(items) => {
                if items < 1 {
                    1
                } else if items > MAX_ITEMS_PER_PAGE {
                    MAX_ITEMS_PER_PAGE
                } else {
                    items
                }
            },
            None => DEFAULT_ITEMS_PER_PAGE,
        }
    }

    fn offset_fits(&self) -> (fits: bool) {
        let limit: u64 = self.limit();
        match self.page {
            Some(page) => {
                if page < 1 {
                    true
                } else {
                    (page - 1).checked_mul(limit).is_some()
                }
            },
            None => true,
        }
    }

    fn offset(&self) -> (offset: u64) {
        let limit: u64 = self.limit();
        match self.page {
            Some(page) => {
                if page < 1 {
                    0
                } else {
                    (page - 1) * limit
                }
            },
            None => 0,
        }
    }
}

impl Default for RepositoryPagination {
    /// The page of a client that names neither number.
    fn default() -> (pagination: Self)
        ensures
            pagination == (RepositoryPagination { items_per_page: None, page: None }),
    {
        RepositoryPagination { items_per_page: None, page: None }
    }
}

impl Pagination for Option<RepositoryPagination> {
    /// Where no page is asked for: the first 20 rows.
    open spec fn limit_spec(&self) -> int {
        match self {
            Some(pagination) => pagination.limit_spec(),
            None => DEFAULT_ITEMS_PER_PAGE as int,
        }
    }

    open spec fn offset_spec(&self) -> int {
        match self {
            Some(pagination) => pagination.offset_spec(),
            None => 0,
        }
    }

    fn limit(&self) -> (limit: u64) {
        if let Some(pagination) = self {
            return pagination.limit();
        }
        DEFAULT_ITEMS_PER_PAGE
    }

    fn offset_fits(&self) -> (fits: bool) {
        if let Some(pagination) = self {
            return pagination.offset_fits();
        }
        true
    }

    fn offset(&self) -> (offset: u64) {
        if let Some(pagination) = self {
            return pagination.offset();
        }
        0
    }
}

/// Whatever the client sends, the rows to return are between 1 and 100 and
/// the rows to skip are none or more.
pub proof fn lemma_pagination_in_range(pagination: Option<RepositoryPagination>)
    ensures
        1 <= pagination.limit_spec() <= 100,
        pagination.offset_spec() >= 0,
{
    match pagination {
        Some(p) => {
            let limit = limit_of(p.items_per_page);
            match p.page {
                Some(page) => {
                    if page >= 1 {
                        assert((page - 1) * limit >= 0) by (nonlinear_arith)
                            requires
                                page >= 1,
                                limit >= 1,
                        ;
                    }
                },
                None => {},
            }
        },
        None => {},
    }
}

} // verus!
