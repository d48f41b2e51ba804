//! What the captcha endpoints answer.
use vstd::prelude::*;

use crate::captcha::CaptchaResponse;
use crate::reply::Reply;
use crate::text::owned;

verus! {

broadcast use vstd::string::group_string_axioms;

/// A new captcha: `200` with it, or `500` when it could not be stored.
pub fn get_captcha(result: Result<CaptchaResponse, String>) -> (r: Reply<CaptchaResponse>)
    ensures
        match result {
            Ok(c) => r == Reply::Json(200, c),
            Err(_) => r matches Reply::Text(500, m) && m@ == "Failed to generate captcha"@,
        },
{
    match result {
        Ok(c) => Reply::Json(200, c),
        Err(_) => Reply::Text(500, owned("Failed to generate captcha")),
    }
}

/// The verdict on an answer: `200` when it is right, `400` when it is
/// wrong, `500` when it could not be checked.
pub fn verify_captcha(result: Result<bool, String>) -> (r: Reply<()>)
    ensures
        match result {
            Ok(true) => r matches Reply::Text(200, m) && m@ == "Captcha verified"@,
            Ok(false) => r matches Reply::Text(400, m) && m@ == "Invalid captcha"@,
            Err(_) => r matches Reply::Text(500, m) && m@ == "Failed to verify captcha"@,
        },
{
    match result {
        Ok(true) => Reply::Text(200, owned("Captcha verified")),
        Ok(false) => Reply::Text(400, owned("Invalid captcha")),
        Err(_) => Reply::Text(500, owned("Failed to verify captcha")),
    }
}

} // verus!
