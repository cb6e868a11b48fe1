use vstd::prelude::*;
use vstd::string::*;

use crate::status::Status;

verus! {

/// Declares the store driver's error type so that it can be carried here.
#[verifier::external_type_specification]
#[verifier::external_body]
pub struct ExMongoError(mongodb::error::Error);

/// The code of the write error that a `mongodb::error::Error` holds: `Some(code)`
/// when its kind is `ErrorKind::Write(WriteFailure::WriteError(..))`, `None`
/// for every other kind.
pub uninterp spec fn write_code_of(err: mongodb::error::Error) -> Option<i32>;

/// Reads the kind of a `mongodb::error::Error` (its `kind` field) and returns
/// the code of its write error, named by [`write_code_of`].
#[verifier::external_body]
fn write_error_code(err: &mongodb::error::Error) -> (r: Option<i32>)
    ensures
        r == write_code_of(*err),
{
    match &*err.kind {
        mongodb::error::ErrorKind::Write(mongodb::error::WriteFailure::WriteError(w)) => Some(
            w.code,
        ),
        _ => None,
    }
}

/// The store code for a write that breaks a unique index.
pub const DUPLICATE_KEY: i32 = 11000;

/// The status and message that a failed write is answered with, by the code
/// of its write error: a duplicate key is `409 Conflict`, any other write
/// error and any other failure are `500 Internal Server Error`.
pub open spec fn db_error_reply(code: Option<i32>) -> (Status, Seq<char>) {
    match code {
        Some(c) => if c == DUPLICATE_KEY {
            (Status::Conflict, "Dados existentes"@)
        } else {
            (Status::InternalServerError, "Code de erro desconhecido"@)
        },
        None => (Status::InternalServerError, "Erro desconheciddo"@),
    }
}

/// The status and message for a failed write with the given write-error code.
pub fn erro_db_code(code: Option<i32>) -> (r: (Status, String))
    ensures
        (r.0, r.1@) == db_error_reply(code),
{
    match code {
        Some(c) => if c == DUPLICATE_KEY {
            (Status::Conflict, String::from_str("Dados existentes"))
        } else {
            (Status::InternalServerError, String::from_str("Code de erro desconhecido"))
        },
        None => (Status::InternalServerError, String::from_str("Erro desconheciddo")),
    }
}

/// The status and message for a failed write, read off the store's error:
/// `409 Conflict` for a duplicate key, `500` otherwise.
pub fn erro_db(err: mongodb::error::Error) -> (r: (Status, String))
    ensures
        (r.0, r.1@) == db_error_reply(write_code_of(err)),
{
    let code = write_error_code(&err);
    erro_db_code(code)
}

} // verus!
