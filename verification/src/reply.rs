//! What a handler answers: a status code and a body, and the database
//! failure that handlers report.

use vstd::prelude::*;

verus! {

/// `200 OK`
pub const STATUS_OK: u16 = 200;
/// `201 Created`
pub const STATUS_CREATED: u16 = 201;
/// `204 No Content`
pub const STATUS_NO_CONTENT: u16 = 204;
/// `404 Not Found`
pub const STATUS_NOT_FOUND: u16 = 404;
/// `409 Conflict`
pub const STATUS_CONFLICT: u16 = 409;
/// `500 Internal Server Error`
pub const STATUS_INTERNAL_SERVER_ERROR: u16 = 500;

/// A failed database operation: its message, and, for a violated
/// constraint, the constraint's name.
#[derive(Debug, Clone, PartialEq)]
pub struct DbError {
    pub message: String,
    pub constraint: Option<String>,
}

/// The body of a reply.
#[derive(Debug, Clone, PartialEq)]
pub enum Body<T> {
    /// No body.
    Empty,
    /// The value, as JSON.
    Json(T),
    /// The JSON object `{"error": message}`.
    Error(String),
    /// The message as plain text.
    Text(String),
}

/// A status code with a body.
#[derive(Debug, Clone, PartialEq)]
pub struct Reply<T> {
    pub status: u16,
    pub body: Body<T>,
}

/// `r` has the given status and the error body with the given message.
pub open spec fn is_error_reply<T>(r: Reply<T>, status: u16, message: Seq<char>) -> bool {
    &&& r.status == status
    &&& r.body matches Body::Error(m) && m@ == message
}

/// The answer to a lookup of one row: the row with `200`, `404` with
/// `missing` when there is none, `500` with the failure's message when the
/// lookup failed.
pub open spec fn found_reply<T>(r: Reply<T>, result: Result<Option<T>, DbError>, missing: Seq<char>) -> bool {
    match result {
        Ok(Some(row)) => r == Reply { status: STATUS_OK, body: Body::Json(row) },
        Ok(None) => is_error_reply(r, STATUS_NOT_FOUND, missing),
        Err(e) => is_error_reply(r, STATUS_INTERNAL_SERVER_ERROR, e.message@),
    }
}

/// The answer to a deletion that reports the deleted row: `204` with no body
/// when a row went, `404` with `missing` when none matched, `500` with the
/// failure's message when the deletion failed.
pub open spec fn deleted_reply<K>(r: Reply<()>, result: Result<Option<K>, DbError>, missing: Seq<char>) -> bool {
    match result {
        Ok(Some(_)) => r == Reply::<()> { status: STATUS_NO_CONTENT, body: Body::Empty },
        Ok(None) => is_error_reply(r, STATUS_NOT_FOUND, missing),
        Err(e) => is_error_reply(r, STATUS_INTERNAL_SERVER_ERROR, e.message@),
    }
}

/// The answer to a listing: the rows with `200`, or `500` with the
/// failure's message.
pub open spec fn listed_reply<T>(r: Reply<Vec<T>>, result: Result<Vec<T>, DbError>) -> bool {
    match result {
        Ok(rows) => r == Reply { status: STATUS_OK, body: Body::Json(rows) },
        Err(e) => is_error_reply(r, STATUS_INTERNAL_SERVER_ERROR, e.message@),
    }
}

/// Every lookup of one row is answered: `200` with the row when there is one,
/// `404` with the given message when there is none, `500` with the failure's
/// message when it failed.
pub proof fn lemma_found_reply<T>(r: Reply<T>, result: Result<Option<T>, DbError>, missing: Seq<char>)
    requires
        found_reply(r, result, missing),
    ensures
        result matches Ok(Some(row)) ==> (r.status == STATUS_OK && r.body == Body::Json(row)),
        result matches Ok(None) ==> (r.status == STATUS_NOT_FOUND && (r.body matches Body::Error(m)
            && m@ == missing)),
        result matches Err(e) ==> (r.status == STATUS_INTERNAL_SERVER_ERROR && (r.body matches Body::Error(
            m,
        ) && m@ == e.message@)),
{
}

/// A deletion is answered `204` with no body when a row went, `404` with the
/// given message when none matched, `500` with the failure's message.
pub proof fn lemma_deleted_reply<K>(r: Reply<()>, result: Result<Option<K>, DbError>, missing: Seq<char>)
    requires
        deleted_reply(r, result, missing),
    ensures
        result matches Ok(Some(_)) ==> (r.status == STATUS_NO_CONTENT && r.body == Body::<()>::Empty),
        result matches Ok(None) ==> (r.status == STATUS_NOT_FOUND && (r.body matches Body::Error(m)
            && m@ == missing)),
        result matches Err(e) ==> (r.status == STATUS_INTERNAL_SERVER_ERROR && (r.body matches Body::Error(
            m,
        ) && m@ == e.message@)),
{
}

/// A listing is answered `200` with all the rows, in the order read, or
/// `500` with the failure's message.
pub proof fn lemma_listed_reply<T>(r: Reply<Vec<T>>, result: Result<Vec<T>, DbError>)
    requires
        listed_reply(r, result),
    ensures
        result matches Ok(rows) ==> (r.status == STATUS_OK && r.body == Body::Json(rows)),
        result matches Err(e) ==> (r.status == STATUS_INTERNAL_SERVER_ERROR && (r.body matches Body::Error(
            m,
        ) && m@ == e.message@)),
{
}

/// `500` with the failure's message in an error body.
pub fn server_error<T>(e: DbError) -> (r: Reply<T>)
    ensures
        is_error_reply(r, STATUS_INTERNAL_SERVER_ERROR, e.message@),
{
    Reply { status: STATUS_INTERNAL_SERVER_ERROR, body: Body::Error(e.message) }
}

/// `404` with the given message in an error body.
pub fn not_found<T>(message: &str) -> (r: Reply<T>)
    ensures
        is_error_reply(r, STATUS_NOT_FOUND, message@),
{
    Reply { status: STATUS_NOT_FOUND, body: Body::Error(message.to_string()) }
}

/// The answer to a lookup of one row; see `found_reply`.
pub fn found<T>(result: Result<Option<T>, DbError>, missing: &str) -> (r: Reply<T>)
    ensures
        found_reply(r, result, missing@),
{
    match result {
        Ok(Some(row)) => Reply { status: STATUS_OK, body: Body::Json(row) },
        Ok(None) => not_found(missing),
        Err(e) => server_error(e),
    }
}

/// The answer to a deletion that reports the deleted row; see
/// `deleted_reply`.
pub fn deleted<K>(result: Result<Option<K>, DbError>, missing: &str) -> (r: Reply<()>)
    ensures
        deleted_reply(r, result, missing@),
{
    match result {
        Ok(Some(_)) => Reply { status: STATUS_NO_CONTENT, body: Body::Empty },
        Ok(None) => not_found(missing),
        Err(e) => server_error(e),
    }
}

/// The answer to a listing; see `listed_reply`.
pub fn listed<T>(result: Result<Vec<T>, DbError>) -> (r: Reply<Vec<T>>)
    ensures
        listed_reply(r, result),
{
    match result {
        Ok(rows) => Reply { status: STATUS_OK, body: Body::Json(rows) },
        Err(e) => server_error(e),
    }
}

} // verus!
