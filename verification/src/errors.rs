//! The application's errors and the JSON error body that each of them is
//! answered with.
use vstd::prelude::*;

use crate::db::DbError;
use crate::text::{concat, owned};

verus! {

broadcast use vstd::string::group_string_axioms;

/// One failed validation rule: a code, and an optional message for humans.
pub struct ValidationError {
    pub code: String,
    pub message: Option<String>,
}

impl ValidationError {
    /// The code and the message of this error.
    pub open spec fn view_pair(self) -> ErrorView {
        (
            self.code@,
            match self.message {
                Some(m) => Some(m@),
                None => None,
            },
        )
    }

    /// An error with the given code and no message.
    pub fn new(code: &str) -> (r: ValidationError)
        ensures
            r.code@ == code@,
            r.message is None,
    {
        ValidationError { code: owned(code), message: None }
    }

    /// The same error, with `message` attached.
    pub fn with_message(self, message: &str) -> (r: ValidationError)
        ensures
            r.code == self.code,
            r.message matches Some(m) && m@ == message@,
    {
        ValidationError { code: self.code, message: Some(owned(message)) }
    }
}

/// A failed rule seen by its code and its optional message.
pub type ErrorView = (Seq<char>, Option<Seq<char>>);

/// The failed rule that the outcome of one check reports, if any.
pub open spec fn outcome(r: Result<(), ValidationError>) -> Option<ErrorView> {
    match r {
        Ok(_) => None,
        Err(e) => Some(e.view_pair()),
    }
}

/// The checks of a request, field by field, that failed, with the rule
/// each broke, in order.
pub open spec fn failed_checks(checks: Seq<(Seq<char>, Option<ErrorView>)>) -> Seq<
    (Seq<char>, ErrorView),
>
    decreases checks.len(),
{
    if checks.len() == 0 {
        Seq::empty()
    } else {
        let prev = failed_checks(checks.drop_last());
        match checks.last().1 {
            Some(e) => prev.push((checks.last().0, e)),
            None => prev,
        }
    }
}

/// `errs` lists the failed checks, in order: each with the field's name
/// and, as its one error, the rule it broke.
pub open spec fn lists_failures(
    errs: Seq<FieldErrors>,
    checks: Seq<(Seq<char>, Option<ErrorView>)>,
) -> bool {
    let failed = failed_checks(checks);
    &&& errs.len() == failed.len()
    &&& forall|i: int|
        0 <= i < failed.len() ==> {
            &&& (#[trigger] errs[i]).field@ == failed[i].0
            &&& errs[i].errors@.len() == 1
            &&& errs[i].errors@[0].view_pair() == failed[i].1
        }
}

/// `r` is what validating a request with these checks gives: `Ok` when no
/// check failed, and otherwise one entry per failed check, in order, holding
/// the field's name and the rule it broke.
pub open spec fn reports(
    r: Result<(), ValidationErrors>,
    checks: Seq<(Seq<char>, Option<ErrorView>)>,
) -> bool {
    match r {
        Ok(_) => failed_checks(checks).len() == 0,
        Err(errs) => failed_checks(checks).len() > 0 && lists_failures(errs.fields@, checks),
    }
}

/// Adds the outcome `r` of the check of `field` to `errs`.
pub(crate) fn record(
    errs: &mut ValidationErrors,
    field: &str,
    r: Result<(), ValidationError>,
    Ghost(checks): Ghost<Seq<(Seq<char>, Option<ErrorView>)>>,
)
    requires
        lists_failures(old(errs).fields@, checks),
    ensures
        lists_failures(final(errs).fields@, checks.push((field@, outcome(r)))),
{
    let ghost next = checks.push((field@, outcome(r)));
    assert(next.drop_last() == checks);
    match r {
        Ok(_) => {},
        Err(e) => {
            errs.add(field, e);
        },
    }
}

/// The result of a validation whose outcomes `errs` lists.
pub(crate) fn finish(
    errs: ValidationErrors,
    Ghost(checks): Ghost<Seq<(Seq<char>, Option<ErrorView>)>>,
) -> (r: Result<(), ValidationErrors>)
    requires
        lists_failures(errs.fields@, checks),
    ensures
        reports(r, checks),
{
    if errs.is_empty() {
        Ok(())
    } else {
        Err(errs)
    }
}

/// The failed rules of one field.
pub struct FieldErrors {
    pub field: String,
    pub errors: Vec<ValidationError>,
}

/// The failed rules of a whole request, field by field.
pub struct ValidationErrors {
    pub fields: Vec<FieldErrors>,
}

impl ValidationErrors {
    /// No failed rule yet.
    pub fn new() -> (r: ValidationErrors)
        ensures
            r.fields@.len() == 0,
    {
        ValidationErrors { fields: Vec::new() }
    }

    /// Records that `field` failed with `error`, as a field of its own.
    pub fn add(&mut self, field: &str, error: ValidationError)
        ensures
            final(self).fields@.len() == old(self).fields@.len() + 1,
            forall|i: int| 0 <= i < old(self).fields@.len() ==> final(self).fields@[i] == old(self).fields@[i],
            final(self).fields@.last().field@ == field@,
            final(self).fields@.last().errors@ == seq![error],
    {
        let mut errors: Vec<ValidationError> = Vec::new();
        errors.push(error);
        self.fields.push(FieldErrors { field: owned(field), errors });
    }

    /// Whether no rule failed.
    pub fn is_empty(&self) -> (r: bool)
        ensures
            r == (self.fields@.len() == 0),
    {
        self.fields.len() == 0
    }
}

/// Every error that a request can end in.
pub enum AppError {
    /// The request's fields broke validation rules (400).
    Validation(ValidationErrors),
    /// A value was given but is wrong (400).
    Invalid(String),
    /// The caller may not do this (403).
    PermissionDenied(String),
    /// The named thing does not exist (404).
    NotFound(String),
    /// The named field's value is already taken (409).
    Conflict(String),
    /// The named thing has expired (410).
    Expired(String),
    /// Asked again too soon (429).
    TooManyRequests(String),
    /// No account matches the login certificate (401).
    InvalidCredentials(String),
    /// The token could not be decoded or validated (401).
    InvalidToken,
    /// The database failed (500).
    Database(DbError),
    /// Sending mail failed; the mail transport's description (500).
    Smtp(String),
    /// Anything else that failed; its description (500).
    Internal(String),
}

/// The messages of one field, in an error body.
pub struct FieldMessages {
    pub field: String,
    pub messages: Vec<String>,
}

/// The JSON body of an error answer.
pub struct ApiErrorResponse {
    pub status: u16,
    pub message: String,
    pub errors: Option<Vec<FieldMessages>>,
}

/// The body answers validation errors with: one entry per field, holding
/// the codes of the field's failed rules in order.
pub open spec fn lists_codes(v: Seq<FieldMessages>, errs: Seq<FieldErrors>) -> bool {
    &&& v.len() == errs.len()
    &&& forall|i: int|
        0 <= i < v.len() ==> {
            &&& (#[trigger] v[i]).field@ == errs[i].field@
            &&& v[i].messages@.len() == errs[i].errors@.len()
            &&& forall|j: int|
                0 <= j < v[i].messages@.len() ==> (#[trigger] v[i].messages@[j])@
                    == errs[i].errors@[j].code@
        }
}

/// The status code that answers `e`.
pub open spec fn status_of(e: AppError) -> u16 {
    match e {
        AppError::Validation(_) => 400,
        AppError::Invalid(_) => 400,
        AppError::PermissionDenied(_) => 403,
        AppError::NotFound(_) => 404,
        AppError::Conflict(_) => 409,
        AppError::Expired(_) => 410,
        AppError::TooManyRequests(_) => 429,
        AppError::InvalidCredentials(_) => 401,
        AppError::InvalidToken => 401,
        AppError::Database(_) => 500,
        AppError::Smtp(_) => 500,
        AppError::Internal(_) => 500,
    }
}

fn codes_of(errors: &Vec<ValidationError>) -> (r: Vec<String>)
    ensures
        r@.len() == errors@.len(),
        forall|j: int| 0 <= j < r@.len() ==> (#[trigger] r@[j])@ == errors@[j].code@,
{
    let mut out: Vec<String> = Vec::new();
    let mut j: usize = 0;
    while j < errors.len()
        invariant
            j <= errors.len(),
            out@.len() == j,
            forall|k: int| 0 <= k < j ==> (#[trigger] out@[k])@ == errors@[k].code@,
        decreases errors.len() - j,
    {
        out.push(errors[j].code.clone());
        j = j + 1;
    }
    out
}

fn field_messages(errs: &ValidationErrors) -> (r: Vec<FieldMessages>)
    ensures
        lists_codes(r@, errs.fields@),
{
    let mut out: Vec<FieldMessages> = Vec::new();
    let mut i: usize = 0;
    while i < errs.fields.len()
        invariant
            i <= errs.fields.len(),
            lists_codes(out@, errs.fields@.take(i as int)),
        decreases errs.fields.len() - i,
    {
        let f = &errs.fields[i];
        let messages = codes_of(&f.errors);
        out.push(FieldMessages { field: f.field.clone(), messages });
        assert(errs.fields@.take(i + 1).drop_last() == errs.fields@.take(i as int));
        i = i + 1;
    }
    assert(errs.fields@.take(errs.fields.len() as int) == errs.fields@);
    out
}

impl AppError {
    /// The answer to this error: its status, its message and, for
    /// validation and conflict errors, the messages of each field.
    pub fn into_response(self) -> (r: ApiErrorResponse)
        ensures
            r.status == status_of(self),
            match self {
                AppError::Validation(errs) => {
                    &&& r.message@ == "Validation failed"@
                    &&& r.errors matches Some(v) && lists_codes(v@, errs.fields@)
                },
                AppError::Conflict(field) => {
                    &&& r.message@ == "Resource conflict"@
                    &&& r.errors matches Some(v) && v@.len() == 1 && v@[0].field@ == field@
                        && v@[0].messages@.len() == 1 && v@[0].messages@[0]@ == field@
                        + " already exists"@
                },
                AppError::Invalid(m) => r.message@ == m@ && r.errors is None,
                AppError::PermissionDenied(m) => r.message@ == m@ && r.errors is None,
                AppError::NotFound(m) => r.message@ == m@ && r.errors is None,
                AppError::Expired(m) => r.message@ == m@ && r.errors is None,
                AppError::TooManyRequests(m) => r.message@ == m@ && r.errors is None,
                AppError::InvalidCredentials(m) => r.message@ == m@ && r.errors is None,
                AppError::InvalidToken => r.message@ == "Invalid token"@ && r.errors is None,
                AppError::Database(e) => r.message@ == "Database error: "@ + e.text_spec()
                    && r.errors is None,
                AppError::Smtp(m) => r.message@ == "SMTP error: "@ + m@ && r.errors is None,
                AppError::Internal(m) => r.message@ == "Internal server error: "@ + m@
                    && r.errors is None,
            },
    {
        match self {
            AppError::Validation(errs) => {
                let v = field_messages(&errs);
                ApiErrorResponse { status: 400, message: owned("Validation failed"), errors: Some(v) }
            },
            AppError::Invalid(m) => ApiErrorResponse { status: 400, message: m, errors: None },
            AppError::PermissionDenied(m) => ApiErrorResponse {
                status: 403,
                message: m,
                errors: None,
            },
            AppError::NotFound(m) => ApiErrorResponse { status: 404, message: m, errors: None },
            AppError::Expired(m) => ApiErrorResponse { status: 410, message: m, errors: None },
            AppError::TooManyRequests(m) => ApiErrorResponse {
                status: 429,
                message: m,
                errors: None,
            },
            AppError::InvalidCredentials(m) => ApiErrorResponse {
                status: 401,
                message: m,
                errors: None,
            },
            AppError::InvalidToken => ApiErrorResponse {
                status: 401,
                message: owned("Invalid token"),
                errors: None,
            },
            AppError::Conflict(field) => {
                let mut messages: Vec<String> = Vec::new();
                messages.push(concat(field.as_str(), " already exists"));
                let mut v: Vec<FieldMessages> = Vec::new();
                v.push(FieldMessages { field, messages });
                ApiErrorResponse { status: 409, message: owned("Resource conflict"), errors: Some(v) }
            },
            AppError::Database(e) => {
                let t = e.text();
                ApiErrorResponse {
                    status: 500,
                    message: concat("Database error: ", t.as_str()),
                    errors: None,
                }
            },
            AppError::Smtp(m) => ApiErrorResponse {
                status: 500,
                message: concat("SMTP error: ", m.as_str()),
                errors: None,
            },
            AppError::Internal(m) => ApiErrorResponse {
                status: 500,
                message: concat("Internal server error: ", m.as_str()),
                errors: None,
            },
        }
    }
}

/// Every error is answered with a client-error or a server-error status.
pub proof fn lemma_error_status_is_4xx_or_5xx(e: AppError)
    ensures
        400 <= status_of(e) <= 599,
{
}

} // verus!
