//! Email verification codes.
use vstd::prelude::*;

use crate::text::string_push;

verus! {

/// A random byte (`rand::random::<u8>()`). Nothing is stated of its value.
#[verifier::external_body]
fn random_byte() -> (r: u8) {
    rand::random::<u8>()
}

/// The character a code digit `n` (`n < 36`) stands for, from
/// `ABCDEFGHIJKLMNOPQRSTUVWXYZ0123456789`.
pub open spec fn code_char(n: nat) -> char {
    if n < 26 {
        (('A' as nat) + n) as char
    } else {
        (('0' as nat) + n - 26) as char
    }
}

/// Whether `c` can appear in a verification code: an ASCII uppercase
/// letter or an ASCII digit.
pub open spec fn is_code_char(c: char) -> bool {
    ('A' <= c && c <= 'Z') || ('0' <= c && c <= '9')
}

fn code_char_of(n: u8) -> (r: char)
    requires
        n < 36,
    ensures
        r == code_char(n as nat),
        is_code_char(r),
{
    if n < 26 {
        let b: u8 = 65u8 + n;
        let c = b as char;
        assert(c == code_char(n as nat)) by {
            assert((b as u32) == 65 + n);
        }
        c
    } else {
        let b: u8 = 48u8 + (n - 26);
        let c = b as char;
        assert(c == code_char(n as nat)) by {
            assert((b as u32) == 48 + n - 26);
        }
        c
    }
}

/// A verification code sent to an email address.
pub struct EmailVerificationCode {
    pub id: i32,
    pub email: String,
    pub code: String,
    /// Microseconds since the Unix epoch, as are the two below.
    pub expires_at: i64,
    pub created_at: i64,
    pub updated_at: i64,
}

/// The code whose characters the bytes `bytes` stand for: byte `b` gives
/// `code_char(b % 36)`.
pub fn code_from_bytes(bytes: &Vec<u8>) -> (r: String)
    ensures
        r@.len() == bytes@.len(),
        forall|i: int| 0 <= i < r@.len() ==> #[trigger] r@[i] == code_char((bytes@[i] % 36) as nat),
        forall|i: int| 0 <= i < r@.len() ==> is_code_char(#[trigger] r@[i]),
{
    let mut code = String::new();
    let mut i: usize = 0;
    while i < bytes.len()
        invariant
            i <= bytes.len(),
            code@.len() == i,
            forall|k: int| 0 <= k < code@.len() ==> #[trigger] code@[k] == code_char((bytes@[k] % 36) as nat),
            forall|k: int| 0 <= k < code@.len() ==> is_code_char(#[trigger] code@[k]),
        decreases bytes.len() - i,
    {
        string_push(&mut code, code_char_of(bytes[i] % 36));
        i = i + 1;
    }
    code
}

impl EmailVerificationCode {
    /// A random code of `length` characters, each an uppercase ASCII letter
    /// or a digit: `length` random bytes, read by `code_from_bytes`.
    pub fn generate_code(length: usize) -> (r: String)
        ensures
            r@.len() == length,
            forall|i: int| 0 <= i < r@.len() ==> is_code_char(#[trigger] r@[i]),
    {
        let mut bytes: Vec<u8> = Vec::new();
        let mut i: usize = 0;
        while i < length
            invariant
                i <= length,
                bytes@.len() == i,
            decreases length - i,
        {
            bytes.push(random_byte());
            i = i + 1;
        }
        code_from_bytes(&bytes)
    }
}

} // verus!
