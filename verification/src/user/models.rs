//! Users, and the rules their usernames and login certificates follow.
use vstd::prelude::*;

use regex::Regex;
use validator::ValidateEmail;

use crate::errors::{outcome, ErrorView, ValidationError};
use crate::text::{contains_char, has_char, utf8_len, utf8_len_capped};

verus! {

broadcast use vstd::string::group_string_axioms;

#[verifier::external_type_specification]
#[verifier::external_body]
pub struct ExRegex(Regex);

#[verifier::external_type_specification]
#[verifier::external_body]
pub struct ExRegexError(regex::Error);

/// Whether `pattern` is a regular expression the `regex` crate accepts.
pub uninterp spec fn regex_compiles(pattern: Seq<char>) -> bool;

/// Whether the regular expression `pattern` matches somewhere in
/// `haystack` (`Regex::is_match`).
pub uninterp spec fn regex_matches(pattern: Seq<char>, haystack: Seq<char>) -> bool;

/// Whether `text` is an email address by the rules of
/// `validator::ValidateEmail` (the HTML5 form of an address).
pub uninterp spec fn email_valid(text: Seq<char>) -> bool;

/// A compiled regular expression and its source. Only `compile_pattern`
/// builds one, so `re` is always the compiled `source`.
pub struct CompiledPattern {
    source: String,
    re: Regex,
}

impl CompiledPattern {
    /// The source of the expression.
    pub closed spec fn source_spec(&self) -> Seq<char> {
        self.source@
    }
}

/// `Regex::new`: compiles `pattern`. Its success is named `regex_compiles`;
/// on success the source is kept beside the compiled expression.
#[verifier::external_body]
fn compile_pattern(pattern: &str) -> (r: Result<CompiledPattern, regex::Error>)
    ensures
        r is Ok <==> regex_compiles(pattern@),
        r matches Ok(p) ==> p.source_spec() == pattern@,
{
    match Regex::new(pattern) {
        Ok(re) => Ok(CompiledPattern { source: pattern.to_string(), re }),
        Err(e) => Err(e),
    }
}

/// `Regex::is_match`; its result is named `regex_matches`.
#[verifier::external_body]
fn regex_is_match(p: &CompiledPattern, haystack: &str) -> (r: bool)
    ensures
        r == regex_matches(p.source_spec(), haystack@),
{
    p.re.is_match(haystack)
}

/// `ValidateEmail::validate_email` on a `String`. Its result is named
/// `email_valid`; the only fact stated of it is the first test of its
/// source: a text without `@` is no email address.
#[verifier::external_body]
pub(crate) fn validate_email(text: &String) -> (r: bool)
    ensures
        r == email_valid(text@),
        !has_char(text@, '@') ==> !r,
{
    text.validate_email()
}

/// The pattern a username must match: letters, digits and underscores.
pub const USERNAME_PATTERN: &'static str = "^[a-zA-Z0-9_]+$";

/// The compiled username pattern.
pub struct UsernameRule {
    pattern: CompiledPattern,
}

impl UsernameRule {
    #[verifier::type_invariant]
    spec fn compiles_username_pattern(self) -> bool {
        self.pattern.source_spec() == USERNAME_PATTERN@
    }

    /// Compiles `USERNAME_PATTERN`.
    pub fn new() -> (r: Option<UsernameRule>)
        ensures
            r is Some <==> regex_compiles(USERNAME_PATTERN@),
    {
        match compile_pattern(USERNAME_PATTERN) {
            Ok(pattern) => Some(UsernameRule { pattern }),
            Err(_) => None,
        }
    }

    /// Whether the username pattern matches `text`.
    pub fn matches(&self, text: &String) -> (r: bool)
        ensures
            r == regex_matches(USERNAME_PATTERN@, text@),
    {
        proof {
            use_type_invariant(self);
        }
        regex_is_match(&self.pattern, text.as_str())
    }
}

/// A registered user. Usernames and emails are lower case and unique; a
/// user who leaves is marked inactive, not deleted.
pub struct User {
    pub id: i32,
    pub username: String,
    pub email: String,
    pub password_hash: String,
    /// Microseconds since the Unix epoch.
    pub created_at: i64,
    pub is_active: bool,
    pub is_admin: bool,
}

/// The username rule: the pattern matches, and the UTF-8 length is 3 to 20
/// bytes.
pub open spec fn username_acceptable(s: Seq<char>) -> bool {
    regex_matches(USERNAME_PATTERN@, s) && 3 <= utf8_len(s) <= 20
}

/// The rule a username breaks, if any: first the pattern, then the length.
pub open spec fn username_check(s: Seq<char>) -> Option<ErrorView> {
    if !regex_matches(USERNAME_PATTERN@, s) {
        Some(("Username can only contain letters, numbers, and underscores"@, None))
    } else if !(3 <= utf8_len(s) <= 20) {
        Some(("Username must be between 3 and 20 characters long"@, None))
    } else {
        None
    }
}

/// The rule a login certificate breaks, if any: one holding `@` must be an
/// email address, any other must be a valid username.
pub open spec fn certificate_check(s: Seq<char>) -> Option<ErrorView> {
    if has_char(s, '@') {
        if email_valid(s) {
            None
        } else {
            Some(("Invalid email format"@, None))
        }
    } else {
        username_check(s)
    }
}

/// The rule of an `email` field, if broken: code `email`, no message.
pub open spec fn email_check(s: Seq<char>) -> Option<ErrorView> {
    if email_valid(s) {
        None
    } else {
        Some(("email"@, None))
    }
}

impl User {
    /// Checks a username: it must match `USERNAME_PATTERN` and be 3 to 20
    /// bytes long; the pattern is checked first.
    pub fn validate_username(username: &String, rule: &UsernameRule) -> (r: Result<(), ValidationError>)
        ensures
            r is Ok <==> username_acceptable(username@),
            outcome(r) == username_check(username@),
    {
        if !rule.matches(username) {
            return Err(
                ValidationError::new("Username can only contain letters, numbers, and underscores"),
            );
        }
        let len = utf8_len_capped(username.as_str(), 21);
        if len < 3 || len > 20 {
            return Err(ValidationError::new("Username must be between 3 and 20 characters long"));
        }
        Ok(())
    }

    /// Checks a login certificate: one holding `@` must be an email
    /// address; any other must be a valid username.
    pub fn validate_certificate(certificate: &String, rule: &UsernameRule) -> (r: Result<(), ValidationError>)
        ensures
            outcome(r) == certificate_check(certificate@),
    {
        if contains_char(certificate.as_str(), '@') {
            if !validate_email(certificate) {
                return Err(ValidationError::new("Invalid email format"));
            }
        } else {
            Self::validate_username(certificate, rule)?;
        }
        Ok(())
    }
}

} // verus!
