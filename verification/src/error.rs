//! The public error envelope: a stable code, a message and public evidence.

use vstd::prelude::*;
use crate::json::Json;

verus! {

/// A structured public error.
#[derive(Debug, PartialEq)]
pub struct AppControlError {
    pub code: &'static str,
    pub message: String,
    pub details: Json,
}

/// Results of the library's operations.
pub type AppResult<T> = Result<T, AppControlError>;

/// Whether `e` carries `code`, `message` and no details.
pub open spec fn plain_error(e: AppControlError, code: Seq<char>, message: Seq<char>) -> bool {
    e.code@ == code && e.message@ == message && e.details == Json::Null
}

impl AppControlError {
    /// An error without details.
    pub fn new(code: &'static str, message: &str) -> (r: Self)
        ensures
            r.code == code,
            r.message@ == message@,
            r.details == Json::Null,
    {
        AppControlError { code, message: crate::text::owned(message), details: Json::Null }
    }

    /// An error with public evidence.
    pub fn with_details(code: &'static str, message: &str, details: Json) -> (r: Self)
        ensures
            r.code == code,
            r.message@ == message@,
            r.details == details,
    {
        AppControlError { code, message: crate::text::owned(message), details }
    }
}

} // verus!
