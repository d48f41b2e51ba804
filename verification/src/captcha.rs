//! Image captchas: a random text drawn as a picture, of which only the
//! SHA-256 of the answer is kept, until an expiry.
pub mod handlers;
pub mod serializers;

use vstd::prelude::*;

use sha2::{Digest, Sha256};
use uuid::Uuid;

use crate::clock::{add_seconds, fits_i64, shifted};
use crate::text::{has_prefix, parse_i64, parse_i64_spec, string_push};

verus! {

broadcast use vstd::string::group_string_axioms;

/// The SHA-256 digest of `data`.
pub uninterp spec fn sha256(data: Seq<u8>) -> Seq<u8>;

/// `Sha256::digest`. Its result is named `sha256`; the digest is 32 bytes
/// long.
#[verifier::external_body]
fn sha256_digest(data: &[u8]) -> (r: Vec<u8>)
    ensures
        r@ == sha256(data@),
        r@.len() == 32,
{
    Sha256::digest(data).to_vec()
}

/// The lowercase hexadecimal digit of `d` (`d < 16`).
pub open spec fn hex_digit(d: nat) -> char {
    if d < 10 {
        (('0' as nat) + d) as char
    } else {
        (('a' as nat) + d - 10) as char
    }
}

/// Each byte of `bytes` as two lowercase hexadecimal digits (`{:02x}`).
pub open spec fn hex_lower(bytes: Seq<u8>) -> Seq<char>
    decreases bytes.len(),
{
    if bytes.len() == 0 {
        Seq::empty()
    } else {
        hex_lower(bytes.drop_last()).push(hex_digit((bytes.last() / 16) as nat)).push(
            hex_digit((bytes.last() % 16) as nat),
        )
    }
}

fn hex_char(d: u8) -> (r: char)
    requires
        d < 16,
    ensures
        r == hex_digit(d as nat),
        is_hex_lower(r),
{
    if d < 10 {
        let b: u8 = 48u8 + d;
        let c = b as char;
        assert(c == hex_digit(d as nat)) by {
            assert((b as u32) == 48 + d);
        }
        c
    } else {
        let b: u8 = 87u8 + d;
        let c = b as char;
        assert(c == hex_digit(d as nat)) by {
            assert((b as u32) == 97 + d - 10);
        }
        c
    }
}

/// `bytes` in lowercase hexadecimal, two digits per byte.
pub fn to_hex_lower(bytes: &Vec<u8>) -> (r: String)
    ensures
        r@ == hex_lower(bytes@),
        r@.len() == 2 * bytes@.len(),
        forall|i: int| 0 <= i < r@.len() ==> is_hex_lower(#[trigger] r@[i]),
{
    let mut s = String::new();
    let mut i: usize = 0;
    while i < bytes.len()
        invariant
            i <= bytes.len(),
            s@ == hex_lower(bytes@.take(i as int)),
            s@.len() == 2 * i,
            forall|k: int| 0 <= k < s@.len() ==> is_hex_lower(#[trigger] s@[k]),
        decreases bytes.len() - i,
    {
        let b = bytes[i];
        assert(bytes@.take(i + 1).drop_last() == bytes@.take(i as int));
        string_push(&mut s, hex_char(b / 16));
        string_push(&mut s, hex_char(b % 16));
        i = i + 1;
    }
    assert(bytes@.take(bytes.len() as int) == bytes@);
    s
}

/// The hash kept of a captcha answer: the SHA-256 of its UTF-8 bytes, in
/// lowercase hexadecimal.
pub open spec fn answer_hash(answer: Seq<char>) -> Seq<char> {
    hex_lower(sha256(vstd::utf8::encode_utf8(answer)))
}

/// Hashes a captcha answer for storage: 64 lowercase hexadecimal digits.
pub fn hash_answer(answer: &String) -> (r: String)
    ensures
        r@ == answer_hash(answer@),
        r@.len() == 64,
        forall|i: int| 0 <= i < 64 ==> is_hex_lower(#[trigger] r@[i]),
{
    let digest = sha256_digest(answer.as_str().as_bytes());
    to_hex_lower(&digest)
}

/// Whether `c` is one of the 54 characters captcha texts are drawn from:
/// the digits `2`-`9` and the letters other than `I`, `L`, `O`, `i`, `l`,
/// `o`.
pub open spec fn captcha_char(c: char) -> bool {
    ||| ('2' <= c && c <= '9')
    ||| ('A' <= c && c <= 'Z' && c != 'I' && c != 'L' && c != 'O')
    ||| ('a' <= c && c <= 'z' && c != 'i' && c != 'l' && c != 'o')
}

/// A captcha text of `length` characters.
pub open spec fn captcha_text(t: Seq<char>, length: nat) -> bool {
    t.len() == length && forall|i: int| 0 <= i < t.len() ==> captcha_char(#[trigger] t[i])
}

/// The prefix of every image a captcha is drawn as.
pub open spec fn jpeg_data_url_prefix() -> Seq<char> {
    "data:image/jpeg;base64,"@
}

/// `CaptchaBuilder::new()` set up with the given length, size, mode,
/// complexity, compression and distortion, then `build()`; returns the
/// text and `to_base64()` of the image. Both are random. As its source
/// shows, the text has `length` characters (clamped to 1..=32) drawn from
/// its character set, and the image is a JPEG data URL.
#[verifier::external_body]
fn render_captcha(
    length: usize,
    width: u32,
    height: u32,
    dark_mode: bool,
    complexity: u32,
    compression: u8,
    distortion: u32,
) -> (r: (String, String))
    ensures
        captcha_text(
            r.0@,
            if length < 1 {
                1
            } else if length > 32 {
                32
            } else {
                length as nat
            },
        ),
        has_prefix(r.1@, jpeg_data_url_prefix()),
{
    let captcha = captcha_rs::CaptchaBuilder::new().length(length).width(width).height(
        height,
    ).dark_mode(dark_mode).complexity(complexity).compression(compression).distortion(
        distortion,
    ).build();
    (captcha.text.clone(), captcha.to_base64())
}

/// Whether `c` is a lowercase hexadecimal digit.
pub open spec fn is_hex_lower(c: char) -> bool {
    ('0' <= c && c <= '9') || ('a' <= c && c <= 'f')
}

/// The text of a random (version 4) UUID: 8-4-4-4-12 lowercase hexadecimal
/// digits, the version digit `4`, and the variant digit one of `8 9 a b`.
pub open spec fn uuid_v4_text(t: Seq<char>) -> bool {
    &&& t.len() == 36
    &&& forall|i: int|
        0 <= i < 36 ==> if i == 8 || i == 13 || i == 18 || i == 23 {
            t[i] == '-'
        } else {
            is_hex_lower(#[trigger] t[i])
        }
    &&& t[14] == '4'
    &&& (t[19] == '8' || t[19] == '9' || t[19] == 'a' || t[19] == 'b')
}

/// `Uuid::new_v4().to_string()`: random, in the hyphenated lowercase form
/// with the version and variant bits that `new_v4` sets.
#[verifier::external_body]
fn new_uuid_v4() -> (r: String)
    ensures
        uuid_v4_text(r@),
{
    Uuid::new_v4().to_string()
}

/// The captcha as the client gets it.
pub struct CaptchaResponse {
    pub captcha_id: String,
    /// The picture, as a `data:image/jpeg;base64,` URL.
    pub image_base64: String,
}

/// A client's answer to a captcha.
pub struct CaptchaVerify {
    pub captcha_id: String,
    pub answer: String,
}

/// A new captcha: what the client gets, and what is stored of it.
pub struct CaptchaIssue {
    pub response: CaptchaResponse,
    /// `answer_hash` of the text drawn in the picture.
    pub answer_hash: String,
    /// Microseconds since the Unix epoch.
    pub expires_at: i64,
}

/// How long a captcha lives, in seconds, from the setting
/// `CAPTCHA_EXPIRATION_SECONDS`: its value when it parses as an `i64`,
/// 300 when it is missing or does not parse.
pub open spec fn expire_seconds(setting: Option<Seq<char>>) -> i64 {
    match setting {
        Some(s) => match parse_i64_spec(s) {
            Some(v) => v,
            None => 300,
        },
        None => 300,
    }
}

/// `CAPTCHA_EXPIRATION_SECONDS` as `expire_seconds` reads it.
pub fn captcha_expire_seconds(setting: Option<&str>) -> (r: i64)
    ensures
        r == expire_seconds(
            match setting {
                Some(s) => Some(s@),
                None => None,
            },
        ),
{
    match setting {
        Some(s) => match parse_i64(s) {
            Some(v) => v,
            None => 300,
        },
        None => 300,
    }
}

/// The instant a captcha made at `now` with `setting` expires at is
/// representable.
pub open spec fn expiry_fits(setting: Option<Seq<char>>, now: i64) -> bool {
    fits_i64(expire_seconds(setting) * 1_000_000) && fits_i64(
        shifted(now, expire_seconds(setting), 1_000_000),
    )
}

/// The captcha whose picture `image_base64` draws `text`, under the id
/// `captcha_id`, made at `now`: the client gets the id and the picture; the
/// hash of the text and the expiry, `expire_seconds(setting)` after `now`,
/// are kept.
pub fn issue_captcha(
    text: String,
    image_base64: String,
    captcha_id: String,
    setting: Option<&str>,
    now: i64,
) -> (r: CaptchaIssue)
    requires
        expiry_fits(
            match setting {
                Some(s) => Some(s@),
                None => None,
            },
            now,
        ),
    ensures
        r.response.captcha_id == captcha_id,
        r.response.image_base64 == image_base64,
        r.answer_hash@ == answer_hash(text@),
        r.answer_hash@.len() == 64,
        forall|i: int| 0 <= i < 64 ==> is_hex_lower(#[trigger] r.answer_hash@[i]),
        r.expires_at == shifted(
            now,
            expire_seconds(
                match setting {
                    Some(s) => Some(s@),
                    None => None,
                },
            ),
            1_000_000,
        ),
{
    let hashed = hash_answer(&text);
    let secs = captcha_expire_seconds(setting);
    let expires_at = add_seconds(now, secs);
    CaptchaIssue {
        response: CaptchaResponse { captcha_id, image_base64 },
        answer_hash: hashed,
        expires_at,
    }
}

/// Makes a captcha at `now`: a 5-character text drawn 220x100 in light
/// mode, complexity 5, compression 40, distortion 3; a random UUID as its
/// id; then `issue_captcha` on the drawn text and picture.
pub fn generate_captcha(setting: Option<&str>, now: i64) -> (r: CaptchaIssue)
    requires
        expiry_fits(
            match setting {
                Some(s) => Some(s@),
                None => None,
            },
            now,
        ),
    ensures
        uuid_v4_text(r.response.captcha_id@),
        has_prefix(r.response.image_base64@, jpeg_data_url_prefix()),
        exists|t: Seq<char>| captcha_text(t, 5) && r.answer_hash@ == answer_hash(t),
        r.answer_hash@.len() == 64,
        forall|i: int| 0 <= i < 64 ==> is_hex_lower(#[trigger] r.answer_hash@[i]),
        r.expires_at == shifted(
            now,
            expire_seconds(
                match setting {
                    Some(s) => Some(s@),
                    None => None,
                },
            ),
            1_000_000,
        ),
{
    let (text, image_base64) = render_captcha(5, 220, 100, false, 5, 40, 3);
    let captcha_id = new_uuid_v4();
    proof {
        assert(captcha_text(text@, 5));
    }
    issue_captcha(text, image_base64, captcha_id, setting, now)
}

impl CaptchaVerify {
    /// Whether this answer solves the stored captcha: it was found, has not
    /// expired at `now`, and its answer hashes to the stored hash.
    pub fn is_solved_by(&self, stored: Option<(String, i64)>, now: i64) -> (r: bool)
        ensures
            r == match stored {
                Some((hash, expires_at)) => now <= expires_at && answer_hash(self.answer@)
                    == hash@,
                None => false,
            },
    {
        match stored {
            Some((hash, expires_at)) => {
                if expires_at < now {
                    return false;
                }
                let h = hash_answer(&self.answer);
                h == hash
            },
            None => false,
        }
    }
}

} // verus!
