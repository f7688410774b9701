//! The error taxonomy and its mapping to HTTP statuses.
//!
//! Every data-access failure is one of the kinds below; a central recovery
//! step maps each kind to exactly one HTTP status code and message
//! envelope. The storage engine reports a violated title-uniqueness
//! constraint only through its error message, so the classifier here
//! decides duplicate-key versus plain query failure by a proved substring
//! search.

use vstd::prelude::*;
use crate::response::GenericResponse;

verus! {

/// The failure kinds of the data-access layer. Each carries the rendered
/// message of the underlying failure; the invalid-identifier kind carries
/// the offending identifier itself.
#[derive(Debug)]
pub enum Error {
    MongoError(String),
    MongoQueryError(String),
    MongoDuplicateError(String),
    MongoSerializeBsonError(String),
    MongoDataError(String),
    InvalidIDError(String),
}

/// Everything the recovery step can be handed: an unmatched route, a body
/// that did not deserialize, a data-access failure, a request with an
/// unsupported method, or anything else.
#[derive(Debug)]
pub enum Rejection {
    NotFound,
    BodyDeserialize,
    App(Error),
    MethodNotAllowed,
    Other,
}

/// Does `needle` occur contiguously in `hay`?
pub open spec fn contains_seq(hay: Seq<char>, needle: Seq<char>) -> bool {
    exists|k: int|
        0 <= k && k + needle.len() <= hay.len() && #[trigger] hay.subrange(k, k + needle.len())
            == needle
}

/// Does `needle` stand in `hay` at position `k`?
fn matches_at(hay: &str, needle: &str, k: usize) -> (b: bool)
    requires
        k + needle@.len() <= hay@.len(),
        hay@.len() <= usize::MAX,
    ensures
        b == (hay@.subrange(k as int, k + needle@.len()) == needle@),
{
    let m = needle.unicode_len();
    let mut j: usize = 0;
    while j < m
        invariant
            m == needle@.len(),
            k + m <= hay@.len(),
            hay@.len() <= usize::MAX,
            0 <= j <= m,
            forall|jj: int| 0 <= jj < j ==> hay@[k + jj] == needle@[jj],
        decreases m - j,
    {
        if hay.get_char(k + j) != needle.get_char(j) {
            proof {
                let sub = hay@.subrange(k as int, k + needle@.len());
                assert(sub[j as int] == hay@[k + j]);
            }
            return false;
        }
        j = j + 1;
    }
    proof {
        assert(hay@.subrange(k as int, k + needle@.len()) =~= needle@);
    }
    true
}

/// Substring search over the characters of `hay`.
pub fn str_contains(hay: &str, needle: &str) -> (b: bool)
    ensures
        b == contains_seq(hay@, needle@),
{
    let n = hay.unicode_len();
    let m = needle.unicode_len();
    if m > n {
        return false;
    }
    if m == 0 {
        proof {
            assert(hay@.subrange(0, 0 + needle@.len() as int) =~= needle@);
        }
        return true;
    }
    let mut k: usize = 0;
    while k <= n - m
        invariant
            n == hay@.len(),
            m == needle@.len(),
            1 <= m <= n,
            0 <= k <= n - m + 1,
            forall|kk: int|
                0 <= kk < k ==> #[trigger] hay@.subrange(kk, kk + needle@.len()) != needle@,
        decreases n - m + 1 - k,
    {
        if matches_at(hay, needle, k) {
            return true;
        }
        k = k + 1;
    }
    false
}

/// The message fragment by which the storage engine reports a violated
/// uniqueness constraint.
pub open spec fn duplicate_key_marker() -> Seq<char> {
    "E11000 duplicate key error collection"@
}

/// Classify the message of a failed insert: a duplicate-key conflict when
/// the engine's duplicate-key marker occurs in it, a plain query failure
/// otherwise. Either way the message is carried along.
pub fn classify_insert_error(msg: &str) -> (r: Error)
    ensures
        contains_seq(msg@, duplicate_key_marker()) ==> (r matches Error::MongoDuplicateError(
            m,
        ) && m@ == msg@),
        !contains_seq(msg@, duplicate_key_marker()) ==> (r matches Error::MongoQueryError(m)
            && m@ == msg@),
{
    if str_contains(msg, "E11000 duplicate key error collection") {
        Error::MongoDuplicateError(msg.to_owned())
    } else {
        Error::MongoQueryError(msg.to_owned())
    }
}

/// Map a rejection to its one HTTP status code and `{status, message}`
/// envelope:
///
/// * unmatched route: 404, a fixed not-found message;
/// * malformed body: 400, a fixed invalid-body message;
/// * duplicate key: 409, a fixed conflict message;
/// * query, serialization and generic storage failures: 500, a fixed
///   generic message each;
/// * malformed stored data: 400, a fixed validation message;
/// * invalid identifier: 400, echoing the offending identifier;
/// * unsupported method: 405, a fixed message;
/// * anything else: 500, a fixed internal-error message.
pub fn handle_rejection(err: &Rejection) -> (r: (u16, GenericResponse))
    ensures
        err is NotFound ==> r.0 == 404 && r.1.status@ == "failed"@ && r.1.message@
            == "Route does not exist on server"@,
        err is BodyDeserialize ==> r.0 == 400 && r.1.status@ == "failed"@ && r.1.message@
            == "Invalid Body"@,
        err matches Rejection::App(Error::MongoError(_)) ==> r.0 == 500 && r.1.status@
            == "fail"@ && r.1.message@ == "mongodb error"@,
        err matches Rejection::App(Error::MongoDuplicateError(_)) ==> r.0 == 409 && r.1.status@
            == "fail"@ && r.1.message@ == "Duplicate key error"@,
        err matches Rejection::App(Error::MongoQueryError(_)) ==> r.0 == 500 && r.1.status@
            == "fail"@ && r.1.message@ == "Error during mongodb query"@,
        err matches Rejection::App(Error::MongoSerializeBsonError(_)) ==> r.0 == 500
            && r.1.status@ == "fail"@ && r.1.message@ == "Error serializing BSON"@,
        err matches Rejection::App(Error::MongoDataError(_)) ==> r.0 == 400 && r.1.status@
            == "fail"@ && r.1.message@ == "validation error"@,
        err matches Rejection::App(Error::InvalidIDError(id)) ==> r.0 == 400 && r.1.status@
            == "fail"@ && r.1.message@ == id@,
        err is MethodNotAllowed ==> r.0 == 405 && r.1.status@ == "failed"@ && r.1.message@
            == "Method not allowed"@,
        err is Other ==> r.0 == 500 && r.1.status@ == "error"@ && r.1.message@
            == "Internal Server error"@,
{
    match err {
        Rejection::NotFound => (
            404,
            GenericResponse {
                status: String::from_str("failed"),
                message: String::from_str("Route does not exist on server"),
            },
        ),
        Rejection::BodyDeserialize => (
            400,
            GenericResponse {
                status: String::from_str("failed"),
                message: String::from_str("Invalid Body"),
            },
        ),
        Rejection::App(Error::MongoError(_)) => (
            500,
            GenericResponse {
                status: String::from_str("fail"),
                message: String::from_str("mongodb error"),
            },
        ),
        Rejection::App(Error::MongoDuplicateError(_)) => (
            409,
            GenericResponse {
                status: String::from_str("fail"),
                message: String::from_str("Duplicate key error"),
            },
        ),
        Rejection::App(Error::MongoQueryError(_)) => (
            500,
            GenericResponse {
                status: String::from_str("fail"),
                message: String::from_str("Error during mongodb query"),
            },
        ),
        Rejection::App(Error::MongoSerializeBsonError(_)) => (
            500,
            GenericResponse {
                status: String::from_str("fail"),
                message: String::from_str("Error serializing BSON"),
            },
        ),
        Rejection::App(Error::MongoDataError(_)) => (
            400,
            GenericResponse {
                status: String::from_str("fail"),
                message: String::from_str("validation error"),
            },
        ),
        Rejection::App(Error::InvalidIDError(id)) => (
            400,
            GenericResponse { status: String::from_str("fail"), message: id.clone() },
        ),
        Rejection::MethodNotAllowed => (
            405,
            GenericResponse {
                status: String::from_str("failed"),
                message: String::from_str("Method not allowed"),
            },
        ),
        Rejection::Other => (
            500,
            GenericResponse {
                status: String::from_str("error"),
                message: String::from_str("Internal Server error"),
            },
        ),
    }
}

} // verus!
