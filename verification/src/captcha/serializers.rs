//! The captcha bodies the API exchanges.
pub use crate::captcha::{CaptchaResponse, CaptchaVerify};
