//! The bodies of the user requests and answers, and the rules their fields
//! follow.
use vstd::prelude::*;

use crate::errors::{finish, outcome, record, reports, ErrorView, ValidationError, ValidationErrors};
use crate::user::models::{
    certificate_check, email_check, username_check, validate_email, User, UsernameRule,
};
use crate::user::pwd::{password_check, Password};

verus! {

broadcast use vstd::string::group_string_axioms;

/// Checks an `email` field: code `email` when it is not an address.
pub fn check_email(email: &String) -> (r: Result<(), ValidationError>)
    ensures
        outcome(r) == email_check(email@),
{
    if validate_email(email) {
        Ok(())
    } else {
        Err(ValidationError::new("email"))
    }
}

/// A user as the API shows it.
pub struct UserResponse {
    pub id: i32,
    pub username: String,
    pub email: String,
    /// Microseconds since the Unix epoch.
    pub created_at: i64,
}

/// The checks of a user as shown: its username and its email.
pub open spec fn user_response_checks(username: Seq<char>, email: Seq<char>) -> Seq<
    (Seq<char>, Option<ErrorView>),
> {
    seq![("username"@, username_check(username)), ("email"@, email_check(email))]
}

impl UserResponse {
    /// Validates the username and the email.
    pub fn validate(&self, rule: &UsernameRule) -> (r: Result<(), ValidationErrors>)
        ensures
            reports(r, user_response_checks(self.username@, self.email@)),
    {
        let mut errs = ValidationErrors::new();
        let ghost c0 = Seq::<(Seq<char>, Option<ErrorView>)>::empty();
        record(&mut errs, "username", User::validate_username(&self.username, rule), Ghost(c0));
        let ghost c1 = c0.push(("username"@, username_check(self.username@)));
        record(&mut errs, "email", check_email(&self.email), Ghost(c1));
        let ghost c2 = c1.push(("email"@, email_check(self.email@)));
        assert(c2 == user_response_checks(self.username@, self.email@));
        finish(errs, Ghost(c2))
    }
}

/// A registration request.
pub struct UserRegisterSerializer {
    pub username: String,
    pub email: String,
    pub raw_password: String,
    /// The code mailed to `email`, proving the address is the user's.
    pub email_verification_code: String,
}

/// The checks of a registration: the username, the email and the password,
/// in that order.
pub open spec fn register_checks(username: Seq<char>, email: Seq<char>, raw_password: Seq<char>) -> Seq<
    (Seq<char>, Option<ErrorView>),
> {
    seq![
        ("username"@, username_check(username)),
        ("email"@, email_check(email)),
        ("raw_password"@, password_check(raw_password)),
    ]
}

impl UserRegisterSerializer {
    /// Validates the username, the email and the password.
    pub fn validate(&self, rule: &UsernameRule) -> (r: Result<(), ValidationErrors>)
        ensures
            reports(r, register_checks(self.username@, self.email@, self.raw_password@)),
    {
        let mut errs = ValidationErrors::new();
        let ghost c0 = Seq::<(Seq<char>, Option<ErrorView>)>::empty();
        record(&mut errs, "username", User::validate_username(&self.username, rule), Ghost(c0));
        let ghost c1 = c0.push(("username"@, username_check(self.username@)));
        record(&mut errs, "email", check_email(&self.email), Ghost(c1));
        let ghost c2 = c1.push(("email"@, email_check(self.email@)));
        record(
            &mut errs,
            "raw_password",
            Password::validate_raw_password(&self.raw_password),
            Ghost(c2),
        );
        let ghost c3 = c2.push(("raw_password"@, password_check(self.raw_password@)));
        assert(c3 == register_checks(self.username@, self.email@, self.raw_password@));
        finish(errs, Ghost(c3))
    }
}

/// A login request: a username or an email, and the password.
pub struct UserLoginSerializer {
    pub certificate: String,
    pub raw_password: String,
}

/// The checks of a login: the certificate and the password.
pub open spec fn login_checks(certificate: Seq<char>, raw_password: Seq<char>) -> Seq<
    (Seq<char>, Option<ErrorView>),
> {
    seq![
        ("certificate"@, certificate_check(certificate)),
        ("raw_password"@, password_check(raw_password)),
    ]
}

impl UserLoginSerializer {
    /// Validates the certificate and the password.
    pub fn validate(&self, rule: &UsernameRule) -> (r: Result<(), ValidationErrors>)
        ensures
            reports(r, login_checks(self.certificate@, self.raw_password@)),
    {
        let mut errs = ValidationErrors::new();
        let ghost c0 = Seq::<(Seq<char>, Option<ErrorView>)>::empty();
        record(
            &mut errs,
            "certificate",
            User::validate_certificate(&self.certificate, rule),
            Ghost(c0),
        );
        let ghost c1 = c0.push(("certificate"@, certificate_check(self.certificate@)));
        record(
            &mut errs,
            "raw_password",
            Password::validate_raw_password(&self.raw_password),
            Ghost(c1),
        );
        let ghost c2 = c1.push(("raw_password"@, password_check(self.raw_password@)));
        assert(c2 == login_checks(self.certificate@, self.raw_password@));
        finish(errs, Ghost(c2))
    }
}

/// The tokens a successful login is answered with.
pub struct UserLoginResponse {
    pub access_token: String,
    pub refresh_token: String,
}

/// The token a refresh is answered with.
pub struct RefreshTokenResponse {
    pub access_token: String,
}

} // verus!
