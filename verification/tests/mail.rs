use blog::db::DbError;
use blog::errors::AppError;
use blog::mail::handlers::{send_verification_email, CodeSettings, SendCodeAction, SendCodeEvent};
use blog::mail::models::{code_from_bytes, EmailVerificationCode};
use blog::mail::serializers::SendVerificationEmailSerializer;

const MINUTE: i64 = 60_000_000;

fn settings() -> CodeSettings {
    CodeSettings { length: 6, expiration_minutes: 10, rate_limit_minutes: 1 }
}

#[test]
fn test_generate_code() {
    let length = 6;
    let code = EmailVerificationCode::generate_code(length);
    println!("Generated code: {}", code);
    assert_eq!(code.len(), length);
    assert!(code.chars().all(|c| c.is_ascii_uppercase() || c.is_ascii_digit()));
}

#[test]
fn code_characters_come_from_the_bytes() {
    assert_eq!(code_from_bytes(&vec![0, 25, 26, 35, 36, 255]), "AZ09AD");
    assert_eq!(code_from_bytes(&vec![]), "");
}

#[test]
fn codes_have_the_requested_length() {
    assert_eq!(EmailVerificationCode::generate_code(0), "");
    let long = EmailVerificationCode::generate_code(64);
    assert_eq!(long.chars().count(), 64);
    assert!(long.chars().all(|c| c.is_ascii_uppercase() || c.is_ascii_digit()));
}

#[test]
fn invalid_address_is_refused() {
    let ser = SendVerificationEmailSerializer { email: "not an address".to_string() };
    match send_verification_email(&ser, SendCodeEvent::Start, 0, &settings()) {
        SendCodeAction::Respond(Err(AppError::Validation(errs))) => {
            assert_eq!(errs.fields.len(), 1);
            assert_eq!(errs.fields[0].field, "email");
            assert_eq!(errs.fields[0].errors[0].code, "email");
        }
        _ => panic!("expected a validation error"),
    }
}

#[test]
fn valid_address_looks_up_the_last_code() {
    let ser = SendVerificationEmailSerializer { email: "me@mail.io".to_string() };
    match send_verification_email(&ser, SendCodeEvent::Start, 0, &settings()) {
        SendCodeAction::LoadLastSent { email } => assert_eq!(email, "me@mail.io"),
        _ => panic!("expected the lookup"),
    }
}

#[test]
fn second_request_within_the_limit_is_refused() {
    let ser = SendVerificationEmailSerializer { email: "me@mail.io".to_string() };
    let s = CodeSettings { length: 6, expiration_minutes: 10, rate_limit_minutes: 5 };
    let last: i64 = 1_000 * MINUTE;
    let now = last + 2 * MINUTE + 30_000_000;
    match send_verification_email(&ser, SendCodeEvent::LastSent(Ok(Some(last))), now, &s) {
        SendCodeAction::Respond(Err(AppError::TooManyRequests(m))) => {
            assert_eq!(m, "Please wait 3 minutes before requesting another code")
        }
        _ => panic!("expected a refusal"),
    }
}

#[test]
fn request_after_the_limit_stores_a_new_code() {
    let ser = SendVerificationEmailSerializer { email: "me@mail.io".to_string() };
    let last: i64 = 1_000 * MINUTE;
    let now = last + MINUTE;
    match send_verification_email(&ser, SendCodeEvent::LastSent(Ok(Some(last))), now, &settings()) {
        SendCodeAction::StoreCode { email, code, expires_at } => {
            assert_eq!(email, "me@mail.io");
            assert_eq!(code.len(), 6);
            assert_eq!(expires_at, now + 10 * MINUTE);
        }
        _ => panic!("expected a new code"),
    }
    match send_verification_email(&ser, SendCodeEvent::LastSent(Ok(None)), now, &settings()) {
        SendCodeAction::StoreCode { expires_at, .. } => assert_eq!(expires_at, now + 10 * MINUTE),
        _ => panic!("expected a new code"),
    }
}

#[test]
fn stored_code_is_mailed_then_answered() {
    let ser = SendVerificationEmailSerializer { email: "me@mail.io".to_string() };
    let ev = SendCodeEvent::Stored { code: "K3Y9Z0".to_string(), result: Ok(()) };
    match send_verification_email(&ser, ev, 0, &settings()) {
        SendCodeAction::SendMail(m) => {
            assert_eq!(m.from, "noreply@ban-xia.com");
            assert_eq!(m.to, "me@mail.io");
            assert_eq!(m.subject, "Email Verification");
            assert_eq!(m.body, "Your verification code is: K3Y9Z0");
        }
        _ => panic!("expected the mail"),
    }
    match send_verification_email(&ser, SendCodeEvent::Mailed(Ok(())), 0, &settings()) {
        SendCodeAction::Respond(Ok((200, m))) => assert_eq!(m, "Verification email sent successfully"),
        _ => panic!("expected success"),
    }
}

#[test]
fn failures_of_the_database_and_the_mail_server() {
    let ser = SendVerificationEmailSerializer { email: "me@mail.io".to_string() };
    let ev = SendCodeEvent::LastSent(Err(DbError::Other { text: "down".to_string() }));
    assert!(matches!(
        send_verification_email(&ser, ev, 0, &settings()),
        SendCodeAction::Respond(Err(AppError::Database(_)))
    ));
    let ev = SendCodeEvent::Stored { code: "X".to_string(), result: Err(DbError::RowNotFound) };
    assert!(matches!(
        send_verification_email(&ser, ev, 0, &settings()),
        SendCodeAction::Respond(Err(AppError::Database(DbError::RowNotFound)))
    ));
    match send_verification_email(&ser, SendCodeEvent::Mailed(Err("refused".to_string())), 0, &settings()) {
        SendCodeAction::Respond(Err(AppError::Smtp(t))) => assert_eq!(t, "refused"),
        _ => panic!("expected an SMTP error"),
    }
}

#[test]
fn refusal_waits_between_one_minute_and_the_limit() {
    let ser = SendVerificationEmailSerializer { email: "me@mail.io".to_string() };
    let s = CodeSettings { length: 6, expiration_minutes: 10, rate_limit_minutes: 5 };
    let last: i64 = 1_000 * MINUTE;
    let cases = vec![
        (last, "Please wait 5 minutes before requesting another code"),
        (last + 5 * MINUTE - 1, "Please wait 1 minutes before requesting another code"),
        (last - 2 * MINUTE, "Please wait 7 minutes before requesting another code"),
    ];
    for (now, expected) in cases {
        match send_verification_email(&ser, SendCodeEvent::LastSent(Ok(Some(last))), now, &s) {
            SendCodeAction::Respond(Err(AppError::TooManyRequests(m))) => assert_eq!(m, expected),
            _ => panic!("expected a refusal"),
        }
    }
    assert!(matches!(
        send_verification_email(&ser, SendCodeEvent::LastSent(Ok(Some(last))), last + 5 * MINUTE, &s),
        SendCodeAction::StoreCode { .. }
    ));
}
