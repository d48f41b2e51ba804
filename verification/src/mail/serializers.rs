//! The body of a request for a verification code.
use vstd::prelude::*;

use crate::errors::{finish, record, reports, ErrorView, ValidationErrors};
use crate::user::models::email_check;
use crate::user::serializers::check_email;

verus! {

broadcast use vstd::string::group_string_axioms;

/// A request to mail a verification code to `email`.
pub struct SendVerificationEmailSerializer {
    pub email: String,
}

impl SendVerificationEmailSerializer {
    /// Validates the email address.
    pub fn validate(&self) -> (r: Result<(), ValidationErrors>)
        ensures
            reports(r, seq![("email"@, email_check(self.email@))]),
    {
        let mut errs = ValidationErrors::new();
        let ghost c0 = Seq::<(Seq<char>, Option<ErrorView>)>::empty();
        record(&mut errs, "email", check_email(&self.email), Ghost(c0));
        assert(c0.push(("email"@, email_check(self.email@))) == seq![
            ("email"@, email_check(self.email@)),
        ]);
        finish(errs, Ghost(c0.push(("email"@, email_check(self.email@)))))
    }
}

} // verus!
