//! Passwords: the rules a new password must meet, and its Argon2 hash.
use vstd::prelude::*;

use argon2::password_hash::rand_core::OsRng;
use argon2::password_hash::{PasswordHash, SaltString};
use argon2::{Argon2, PasswordHasher, PasswordVerifier};

use crate::errors::{outcome, ErrorView, ValidationError};
use crate::text::{
    all_ascii, char_is_lowercase, char_is_uppercase, has_prefix, is_ascii_digit, is_digit, is_lowercase,
    is_uppercase, to_chars, utf8_len, utf8_len_capped,
};

verus! {

broadcast use vstd::string::group_string_axioms;

#[verifier::external_type_specification]
#[verifier::external_body]
pub struct ExPasswordHash<'a>(PasswordHash<'a>);

#[verifier::external_type_specification]
#[verifier::external_body]
pub struct ExSaltString(SaltString);

#[verifier::external_type_specification]
#[verifier::external_body]
pub struct ExPasswordHashError(argon2::password_hash::Error);

/// Whether `text` is a well-formed PHC hash string
/// (`PasswordHash::new(text)` succeeds).
pub uninterp spec fn phc_parses(text: Seq<char>) -> bool;

/// Whether Argon2 with its default settings accepts `password` against the
/// PHC hash string `phc` (`Argon2::default().verify_password` succeeds).
pub uninterp spec fn argon2_accepts(phc: Seq<char>, password: Seq<char>) -> bool;

/// A PHC hash string together with its parsed form. Only `parse_phc`
/// builds one, so `parsed` is always the parse of `text`.
pub struct ParsedHash<'a> {
    text: &'a str,
    parsed: PasswordHash<'a>,
}

impl<'a> ParsedHash<'a> {
    /// The hash string this was parsed from.
    pub closed spec fn text_spec(&self) -> Seq<char> {
        self.text@
    }
}

/// `PasswordHash::new`: parses a PHC hash string. Its success is named
/// `phc_parses`; on success the text is kept beside the parsed value.
#[verifier::external_body]
fn parse_phc<'a>(text: &'a str) -> (r: Result<ParsedHash<'a>, argon2::password_hash::Error>)
    ensures
        r is Ok <==> phc_parses(text@),
        r matches Ok(p) ==> p.text_spec() == text@,
{
    match PasswordHash::new(text) {
        Ok(parsed) => Ok(ParsedHash { text, parsed }),
        Err(e) => Err(e),
    }
}

/// `PasswordVerifier::verify_password` of `Argon2::default()`: whether the
/// password hashes, with the algorithm, version, parameters and salt that
/// the PHC string holds, to the hash that it holds. The outcome is named
/// `argon2_accepts`.
#[verifier::external_body]
fn argon2_verify(hash: &ParsedHash, raw: &str) -> (r: bool)
    ensures
        r == argon2_accepts(hash.text_spec(), raw@),
{
    Argon2::default().verify_password(raw.as_bytes(), &hash.parsed).is_ok()
}

/// A fresh random salt. Only `new_salt` builds one, so it always holds the
/// recommended 16 random bytes.
pub struct Salt {
    inner: SaltString,
}

/// `SaltString::generate` with the operating system's random source. The
/// salt is random: nothing is stated of its value.
#[verifier::external_body]
fn new_salt() -> (r: Salt) {
    Salt { inner: SaltString::generate(&mut OsRng) }
}

/// The start of every PHC string of an Argon2id hash, version 19.
pub open spec fn argon2id_prefix() -> Seq<char> {
    "$argon2id$v=19$"@
}

/// `PasswordHasher::hash_password` of `Argon2::default()`, printed as a PHC
/// string. It fails only on a password longer than `0xFFFF_FFFF` bytes (or
/// on a salt that decodes to fewer than 8 bytes, which no `Salt` is), so it
/// succeeds under `requires`. The hash depends on the random salt, which is
/// opaque here: what is stated holds for every salt. The PHC string parses
/// again, and verifying the same password against it succeeds, since the
/// verifier recomputes the hash from the parameters and salt it holds. The
/// default algorithm is Argon2id and the default version 0x13, which the
/// string begins with.
#[verifier::external_body]
fn argon2_hash(raw: &str, salt: &Salt) -> (r: Result<String, argon2::password_hash::Error>)
    requires
        utf8_len(raw@) <= 0xFFFF_FFFF,
    ensures
        r is Ok,
        r matches Ok(h) ==> phc_parses(h@) && argon2_accepts(h@, raw@),
        r matches Ok(h) ==> has_prefix(h@, argon2id_prefix()),
{
    match Argon2::default().hash_password(raw.as_bytes(), &salt.inner) {
        Ok(h) => Ok(h.to_string()),
        Err(e) => Err(e),
    }
}

/// Whether some character of `s` is uppercase.
pub open spec fn has_upper(s: Seq<char>) -> bool {
    exists|i: int| 0 <= i < s.len() && char_is_uppercase(#[trigger] s[i])
}

/// Whether some character of `s` is lowercase.
pub open spec fn has_lower(s: Seq<char>) -> bool {
    exists|i: int| 0 <= i < s.len() && char_is_lowercase(#[trigger] s[i])
}

/// Whether some character of `s` is an ASCII digit.
pub open spec fn has_digit(s: Seq<char>) -> bool {
    exists|i: int| 0 <= i < s.len() && is_digit(#[trigger] s[i])
}

/// Whether some character of `s` is an underscore.
pub open spec fn has_underscore(s: Seq<char>) -> bool {
    exists|i: int| 0 <= i < s.len() && #[trigger] s[i] == '_'
}

/// How many of the four kinds of character (uppercase, lowercase, digit,
/// underscore) occur in `s`.
pub open spec fn kinds_used(s: Seq<char>) -> nat {
    (if has_upper(s) { 1nat } else { 0nat }) + (if has_lower(s) { 1nat } else { 0nat }) + (
    if has_digit(s) { 1nat } else { 0nat }) + (if has_underscore(s) { 1nat } else { 0nat })
}

/// The password rule: at least 8 bytes of UTF-8, and at least two kinds of
/// character.
pub open spec fn password_acceptable(s: Seq<char>) -> bool {
    utf8_len(s) >= 8 && kinds_used(s) >= 2
}

/// The rule a password breaks, if any: first its length, then its kinds
/// of character.
pub open spec fn password_check(s: Seq<char>) -> Option<ErrorView> {
    if utf8_len(s) < 8 {
        Some(("invalid_password_length"@, Some("Password must be at least 8 characters long"@)))
    } else if kinds_used(s) < 2 {
        Some(
            (
                "invalid_password_complexity"@,
                Some(
                    "Password must include at least 2 of the following: uppercase letters, lowercase letters, digits, underscores"@,
                ),
            ),
        )
    } else {
        None
    }
}

/// Characters that are no uppercase letter, no lowercase letter, no digit
/// and no underscore add no kind: symbols other than `_` do not count.
pub proof fn lemma_other_characters_add_no_kind(s: Seq<char>, c: char)
    requires
        !char_is_uppercase(c),
        !char_is_lowercase(c),
        !is_digit(c),
        c != '_',
    ensures
        kinds_used(s.push(c)) == kinds_used(s),
{
    let t = s.push(c);
    assert(has_upper(t) == has_upper(s)) by {
        if has_upper(t) {
            let i = choose|i: int| 0 <= i < t.len() && char_is_uppercase(#[trigger] t[i]);
            assert(i < s.len() && s[i] == t[i]);
        }
        if has_upper(s) {
            let i = choose|i: int| 0 <= i < s.len() && char_is_uppercase(#[trigger] s[i]);
            assert(t[i] == s[i]);
        }
    }
    assert(has_lower(t) == has_lower(s)) by {
        if has_lower(t) {
            let i = choose|i: int| 0 <= i < t.len() && char_is_lowercase(#[trigger] t[i]);
            assert(i < s.len() && s[i] == t[i]);
        }
        if has_lower(s) {
            let i = choose|i: int| 0 <= i < s.len() && char_is_lowercase(#[trigger] s[i]);
            assert(t[i] == s[i]);
        }
    }
    assert(has_digit(t) == has_digit(s)) by {
        if has_digit(t) {
            let i = choose|i: int| 0 <= i < t.len() && is_digit(#[trigger] t[i]);
            assert(i < s.len() && s[i] == t[i]);
        }
        if has_digit(s) {
            let i = choose|i: int| 0 <= i < s.len() && is_digit(#[trigger] s[i]);
            assert(t[i] == s[i]);
        }
    }
    assert(has_underscore(t) == has_underscore(s)) by {
        if has_underscore(t) {
            let i = choose|i: int| 0 <= i < t.len() && #[trigger] t[i] == '_';
            assert(i < s.len() && s[i] == t[i]);
        }
        if has_underscore(s) {
            let i = choose|i: int| 0 <= i < s.len() && #[trigger] s[i] == '_';
            assert(t[i] == s[i]);
        }
    }
}

/// A password long enough but with no uppercase letter, no digit and no
/// underscore (lowercase letters and other symbols only) is refused for its
/// complexity: at most one kind of character occurs in it.
pub proof fn lemma_no_upper_digit_or_underscore_is_too_simple(s: Seq<char>)
    requires
        utf8_len(s) >= 8,
        forall|i: int|
            0 <= i < s.len() ==> !char_is_uppercase(#[trigger] s[i]) && !is_digit(s[i]) && s[i]
                != '_',
    ensures
        password_check(s) matches Some((code, _)) && code == "invalid_password_complexity"@,
        !password_acceptable(s),
{
    assert(!has_upper(s));
    assert(!has_digit(s));
    assert(!has_underscore(s));
}

/// A stored password: always the PHC string of its Argon2 hash.
pub struct Password(pub String);

impl Password {
    /// Whether this hash is a hash of `raw`: it parses, and Argon2 accepts
    /// `raw` against it.
    pub open spec fn hashes(self, raw: Seq<char>) -> bool {
        phc_parses(self.0@) && argon2_accepts(self.0@, raw)
    }

    /// Hashes `raw` at once, with a fresh random salt, with Argon2id.
    /// Verifying `raw` against the result succeeds.
    pub fn new(raw: String) -> (r: Password)
        requires
            utf8_len(raw@) <= 0xFFFF_FFFF,
        ensures
            r.hashes(raw@),
            has_prefix(r.0@, argon2id_prefix()),
    {
        Password(Self::hash(raw))
    }

    /// Checks a password chosen by a user: at least 8 bytes long, and at
    /// least two of uppercase letters, lowercase letters, digits and
    /// underscores.
    pub fn validate_raw_password(raw: &String) -> (r: Result<(), ValidationError>)
        ensures
            r is Ok <==> password_acceptable(raw@),
            outcome(r) == password_check(raw@),
            all_ascii(raw@) && utf8_len(raw@) >= 8 && (forall|i: int|
                0 <= i < raw@.len() ==> !('A' <= #[trigger] raw@[i] && raw@[i] <= 'Z') && !is_digit(
                    raw@[i],
                ) && raw@[i] != '_') ==> (outcome(r) matches Some((code, _)) && code
                == "invalid_password_complexity"@),
    {
        if utf8_len_capped(raw.as_str(), 8) < 8 {
            return Err(
                ValidationError::new("invalid_password_length").with_message(
                    "Password must be at least 8 characters long",
                ),
            );
        }
        let cs = to_chars(raw.as_str());
        let mut upper = false;
        let mut lower = false;
        let mut digit = false;
        let mut underscore = false;
        let mut i: usize = 0;
        while i < cs.len()
            invariant
                cs@ == raw@,
                i <= cs.len(),
                upper == (exists|k: int| 0 <= k < i && char_is_uppercase(#[trigger] cs@[k])),
                lower == (exists|k: int| 0 <= k < i && char_is_lowercase(#[trigger] cs@[k])),
                digit == (exists|k: int| 0 <= k < i && is_digit(#[trigger] cs@[k])),
                underscore == (exists|k: int| 0 <= k < i && #[trigger] cs@[k] == '_'),
                forall|k: int|
                    0 <= k < i ==> ((#[trigger] cs@[k] as u32) < 0x80 ==> (char_is_uppercase(cs@[k])
                        <==> ('A' <= cs@[k] && cs@[k] <= 'Z'))),
            decreases cs.len() - i,
        {
            let c = cs[i];
            if is_uppercase(c) {
                upper = true;
            }
            if is_lowercase(c) {
                lower = true;
            }
            if is_ascii_digit(c) {
                digit = true;
            }
            if c == '_' {
                underscore = true;
            }
            i = i + 1;
        }
        let count: u8 = (if upper { 1u8 } else { 0u8 }) + (if lower { 1u8 } else { 0u8 }) + (
        if digit { 1u8 } else { 0u8 }) + (if underscore { 1u8 } else { 0u8 });
        if count < 2 {
            return Err(
                ValidationError::new("invalid_password_complexity").with_message(
                    "Password must include at least 2 of the following: uppercase letters, lowercase letters, digits, underscores",
                ),
            );
        }
        Ok(())
    }

    /// Whether `raw` is the password this hash was made from. The stored
    /// hash must be a valid PHC string.
    pub fn verify(&self, raw: String) -> (r: bool)
        requires
            phc_parses(self.0@),
        ensures
            r == argon2_accepts(self.0@, raw@),
    {
        match parse_phc(self.0.as_str()) {
            Ok(parsed) => argon2_verify(&parsed, raw.as_str()),
            Err(_) => false,
        }
    }

    /// `verify`, for a stored hash that may be malformed: `None` when it is
    /// not a valid PHC string.
    pub fn check(&self, raw: String) -> (r: Option<bool>)
        ensures
            r == if phc_parses(self.0@) {
                Some(argon2_accepts(self.0@, raw@))
            } else {
                None
            },
    {
        if Self::is_well_formed(&self.0) {
            Some(self.verify(raw))
        } else {
            None
        }
    }

    /// Whether `text` is a valid PHC hash string.
    pub fn is_well_formed(text: &String) -> (r: bool)
        ensures
            r == phc_parses(text@),
    {
        parse_phc(text.as_str()).is_ok()
    }

    fn hash(raw: String) -> (r: String)
        requires
            utf8_len(raw@) <= 0xFFFF_FFFF,
        ensures
            phc_parses(r@) && argon2_accepts(r@, raw@),
            has_prefix(r@, argon2id_prefix()),
    {
        let salt = new_salt();
        match argon2_hash(raw.as_str(), &salt) {
            Ok(h) => h,
            Err(_) => {
                proof {
                    assert(false);
                }
                String::new()
            },
        }
    }
}

/// A password made by `Password::new(raw)` accepts `raw`: `verify` may be
/// called on it, and returns true for `raw`.
pub proof fn lemma_new_password_verifies(p: Password, raw: Seq<char>)
    requires
        p.hashes(raw),
    ensures
        phc_parses(p.0@),
        argon2_accepts(p.0@, raw),
{
}

} // verus!
