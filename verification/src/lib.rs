pub mod captcha;
pub mod clock;
pub mod db;
pub mod errors;
pub mod mail;
pub mod post;
pub mod reply;
pub mod text;
pub mod user;
