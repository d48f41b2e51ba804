//! Database failures, as the request handlers see them.
use vstd::prelude::*;

use crate::errors::AppError;
use crate::text::{contains_str, has_substring, owned, str_eq};

verus! {

broadcast use vstd::string::group_string_axioms;

/// What a failed database call reports.
pub enum DbError {
    /// The database refused the statement: its SQLSTATE code, if any, its
    /// message, and the whole description of the failure.
    Database { code: Option<String>, message: String, text: String },
    /// A query that must return a row returned none.
    RowNotFound,
    /// Any other failure (connection, protocol, decoding), by its description.
    Other { text: String },
}

/// The description of a query that returned no row where one was required.
pub open spec fn row_not_found_text() -> Seq<char> {
    "no rows returned by a query that expected to return at least one row"@
}

impl DbError {
    /// The description of the failure.
    pub open spec fn text_spec(self) -> Seq<char> {
        match self {
            DbError::Database { text, .. } => text@,
            DbError::RowNotFound => row_not_found_text(),
            DbError::Other { text } => text@,
        }
    }

    /// The description of the failure.
    pub fn text(&self) -> (r: String)
        ensures
            r@ == self.text_spec(),
    {
        match self {
            DbError::Database { text, .. } => text.clone(),
            DbError::RowNotFound => owned(
                "no rows returned by a query that expected to return at least one row",
            ),
            DbError::Other { text } => text.clone(),
        }
    }
}

/// A unique-key violation (SQLSTATE 23505) whose message names `field`.
pub open spec fn violates_unique(e: DbError, field: Seq<char>) -> bool {
    e matches DbError::Database { code: Some(c), message, .. } && c@ == "23505"@ && has_substring(
        message@,
        field,
    )
}

/// `a` is the error that answers the failed insert `e`: a unique-key
/// violation on the username or the email is a conflict on that field
/// (the username is looked for first); anything else is a database error.
pub open spec fn answers_db_error(e: DbError, a: AppError) -> bool {
    if violates_unique(e, "username"@) {
        a matches AppError::Conflict(f) && f@ == "username"@
    } else if violates_unique(e, "email"@) {
        a matches AppError::Conflict(f) && f@ == "email"@
    } else {
        a == AppError::Database(e)
    }
}

/// Turns a failed insert into the error that answers it: a unique-key
/// violation on the username or the email is a conflict on that field
/// (the username is looked for first); anything else is a database error.
pub fn handle_db_error(error: DbError) -> (r: AppError)
    ensures
        answers_db_error(error, r),
{
    if let DbError::Database { code: Some(c), message, .. } = &error {
        if str_eq(c.as_str(), "23505") {
            if contains_str(message.as_str(), "username") {
                return AppError::Conflict(owned("username"));
            }
            if contains_str(message.as_str(), "email") {
                return AppError::Conflict(owned("email"));
            }
        }
    }
    AppError::Database(error)
}

} // verus!
