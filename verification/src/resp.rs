//! Response shapes of the API layer and the row-count checks of the
//! persistence glue.
//!
//! These are the plain values the surrounding HTTP layer serializes; the
//! library only shapes and checks them.

use vstd::prelude::*;

use crate::error::Error;

verus! {

/// The body of a created-resource answer: the new record's identifier.
#[derive(Debug, Clone, Copy, PartialEq, Eq, Structural)]
pub struct Created {
    pub id: u128,
}

/// The body of a fetch-one answer.
#[derive(Debug, PartialEq, Eq)]
pub struct FetchOne<T> {
    pub data: T,
}

impl<T> FetchOne<T> {
    /// Wraps one fetched record.
    pub fn new(data: T) -> (r: Self)
        ensures
            r.data == data,
    {
        Self { data }
    }
}

/// The body of a paged-list answer: the total row count and one page of
/// records.
#[derive(Debug, PartialEq, Eq)]
pub struct FetchPaged<T> {
    pub total: i64,
    pub data: Vec<T>,
}

impl<T> FetchPaged<T> {
    /// Wraps one page of records with the total count.
    pub fn new(total: i64, data: Vec<T>) -> (r: Self)
        ensures
            r.total == total,
            r.data == data,
    {
        Self { total, data }
    }

    /// The empty page: no rows at all.
    pub fn empty() -> (r: Self)
        ensures
            r.total == 0,
            r.data@.len() == 0,
    {
        Self { total: 0, data: Vec::new() }
    }
}

/// The body of an answer that reports how many rows a write touched.
#[derive(Debug, Clone, Copy, PartialEq, Eq, Structural)]
pub struct RowsAffected {
    pub rows_affected: u64,
}

impl RowsAffected {
    /// Wraps a row count.
    pub fn new(rows_affected: u64) -> (r: Self)
        ensures
            r.rows_affected == rows_affected,
    {
        Self { rows_affected }
    }
}

/// Holds a write's row count against the count it had to be.
pub trait ExpectRowsAffected: Sized {
    /// The count this value stands for.
    spec fn actual(self) -> u64;

    /// Succeeds exactly when the write affected the expected number of
    /// rows; otherwise the error names both counts.
    fn expect(self, expected: u64) -> (r: Result<RowsAffected, Error>)
        ensures
            self.actual() == expected ==> r == Ok::<RowsAffected, Error>(
                RowsAffected { rows_affected: expected },
            ),
            self.actual() != expected ==> r == Err::<RowsAffected, Error>(
                Error::UnexpectedRowsAffected(expected, self.actual()),
            ),
    ;
}

impl ExpectRowsAffected for u64 {
    open spec fn actual(self) -> u64 {
        self
    }

    fn expect(self, expected: u64) -> (r: Result<RowsAffected, Error>) {
        if self != expected {
            Err(Error::UnexpectedRowsAffected(expected, self))
        } else {
            Ok(RowsAffected { rows_affected: self })
        }
    }
}

/// Whether a status code is the plain success that an answer leaves
/// unwritten.
pub fn is_ok(status: &u16) -> (r: bool)
    ensures
        r == (*status == 200),
{
    *status == 200
}

/// The universal answer: a status code and a message.
#[derive(Debug, Clone, PartialEq, Eq)]
pub struct Response {
    pub status: u16,
    pub message: String,
}

impl Response {
    /// A success answer.
    pub fn ok(message: String) -> (r: Self)
        ensures
            r.status == 200,
            r.message == message,
    {
        Self { status: 200, message }
    }

    /// A failure answer under the given status code.
    pub fn error(status: u16, message: String) -> (r: Self)
        ensures
            r.status == status,
            r.message == message,
    {
        Self { status, message }
    }

    /// A failure answer under status 400.
    pub fn bad_request(message: String) -> (r: Self)
        ensures
            r.status == 400,
            r.message == message,
    {
        Self::error(400, message)
    }

    /// A failure answer under status 404.
    pub fn not_found(message: String) -> (r: Self)
        ensures
            r.status == 404,
            r.message == message,
    {
        Self::error(404, message)
    }

    /// A failure answer under status 401.
    pub fn unauthorized(message: String) -> (r: Self)
        ensures
            r.status == 401,
            r.message == message,
    {
        Self::error(401, message)
    }

    /// A failure answer under status 403.
    pub fn forbidden(message: String) -> (r: Self)
        ensures
            r.status == 403,
            r.message == message,
    {
        Self::error(403, message)
    }

    /// A failure answer under status 500.
    pub fn internal(message: String) -> (r: Self)
        ensures
            r.status == 500,
            r.message == message,
    {
        Self::error(500, message)
    }
}

/// A page request as it arrives from the client, both numbers optional.
#[derive(Debug, Clone, Copy, PartialEq, Eq, Structural)]
pub struct PageArg {
    pub page: Option<u64>,
    pub per_page: Option<u64>,
}

impl PageArg {
    /// The effective page and page size: the first page and ten rows
    /// unless the client said otherwise.
    pub fn paged(&self) -> (r: (u64, u64))
        ensures
            r.0 == match self.page {
                Some(p) => p,
                None => 1u64,
            },
            r.1 == match self.per_page {
                Some(p) => p,
                None => 10u64,
            },
    {
        let page = match self.page {
            Some(p) => p,
            None => 1,
        };
        let per_page = match self.per_page {
            Some(p) => p,
            None => 10,
        };
        (page, per_page)
    }
}

/// A page number as the listing endpoints read it: page 0 means page 1.
pub fn normalize_page(page: u64) -> (p: u64)
    ensures
        p == if page == 0 {
            1u64
        } else {
            page
        },
{
    if page == 0 {
        1
    } else {
        page
    }
}

/// How many rows a listing skips: the rows of the pages before this one.
pub fn page_offset(page: u64, per_page: u64) -> (off: u64)
    requires
        page >= 1,
        (page - 1) * per_page <= u64::MAX,
    ensures
        off == (page - 1) * per_page,
{
    (page - 1) * per_page
}

} // verus!
