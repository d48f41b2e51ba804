//! What the endpoint that mails verification codes decides. The caller runs
//! the conversation with the database and the mail server: it hands each
//! answer back as an event, and performs the action each step returns until
//! the step responds.
use vstd::prelude::*;

use crate::clock::{add_minutes, div_toward_zero, fits_i64, shifted, whole_minutes_between};
use crate::db::DbError;
use crate::errors::{failed_checks, reports, AppError};
use crate::mail::models::{is_code_char, EmailVerificationCode};
use crate::mail::serializers::SendVerificationEmailSerializer;
use crate::text::{concat, owned, push_signed_decimal, push_str, signed_decimal};
use crate::user::models::email_check;

verus! {

broadcast use vstd::string::group_string_axioms;

/// The settings of verification codes: how many characters they have, how
/// many minutes they live, and how many minutes must pass before another
/// code is mailed to the same address.
pub struct CodeSettings {
    pub length: usize,
    pub expiration_minutes: i64,
    pub rate_limit_minutes: i64,
}

/// A mail to send.
pub struct MailDraft {
    pub from: String,
    pub to: String,
    pub subject: String,
    pub body: String,
}

/// What the database and the mail server answered, step by step.
pub enum SendCodeEvent {
    /// The request has just arrived.
    Start,
    /// When a code was last stored for the address (microseconds since the
    /// epoch), if ever.
    LastSent(Result<Option<i64>, DbError>),
    /// The outcome of storing `code`.
    Stored { code: String, result: Result<(), DbError> },
    /// The outcome of sending the mail; the transport's description of a
    /// failure.
    Mailed(Result<(), String>),
}

/// What to do next.
pub enum SendCodeAction {
    /// Look up when a code was last stored for this address.
    LoadLastSent { email: String },
    /// Store this code for the address, replacing any earlier one, with
    /// this expiry, and mark it as stored now.
    StoreCode { email: String, code: String, expires_at: i64 },
    /// Send this mail.
    SendMail(MailDraft),
    /// Answer the request: a status and a text, or an error.
    Respond(Result<(u16, String), AppError>),
}

/// Whether a new code may be mailed at `now`, given when the last one was.
pub open spec fn may_send(last_sent: Option<i64>, now: i64, limit_minutes: i64) -> bool {
    match last_sent {
        Some(last) => now >= shifted(last, limit_minutes, 60_000_000),
        None => true,
    }
}

/// The minutes left to wait, as the refusal states them.
pub open spec fn retry_after(last: i64, now: i64, limit_minutes: i64) -> int {
    limit_minutes - div_toward_zero(now - last, 60_000_000)
}

/// The text of the refusal to mail another code yet.
pub open spec fn wait_message(minutes: int) -> Seq<char> {
    "Please wait "@ + signed_decimal(minutes) + " minutes before requesting another code"@
}

/// The mail that carries `code` to `to`.
pub open spec fn code_mail(to: Seq<char>, code: Seq<char>, m: MailDraft) -> bool {
    &&& m.from@ == "noreply@ban-xia.com"@
    &&& m.to@ == to
    &&& m.subject@ == "Email Verification"@
    &&& m.body@ == "Your verification code is: "@ + code
}

/// The arithmetic of the rate limit and of the expiry stays representable
/// for `event`.
pub open spec fn times_fit(event: SendCodeEvent, now: i64, settings: CodeSettings) -> bool {
    match event {
        SendCodeEvent::LastSent(Ok(last)) => {
            &&& fits_i64(settings.expiration_minutes * 60_000_000)
            &&& fits_i64(shifted(now, settings.expiration_minutes, 60_000_000))
            &&& last matches Some(l) ==> {
                &&& fits_i64(settings.rate_limit_minutes * 60_000_000)
                &&& fits_i64(shifted(l, settings.rate_limit_minutes, 60_000_000))
                &&& fits_i64(now - l)
            }
        },
        _ => true,
    }
}

/// The action that answers `event` for the request `ser` at `now`.
pub open spec fn send_code_step(
    ser: SendVerificationEmailSerializer,
    event: SendCodeEvent,
    now: i64,
    settings: CodeSettings,
    r: SendCodeAction,
) -> bool {
    match event {
        SendCodeEvent::Start => {
            let checks = seq![("email"@, email_check(ser.email@))];
            if failed_checks(checks).len() > 0 {
                r matches SendCodeAction::Respond(Err(AppError::Validation(errs))) && reports(
                    Err(errs),
                    checks,
                )
            } else {
                r matches SendCodeAction::LoadLastSent { email } && email@ == ser.email@
            }
        },
        SendCodeEvent::LastSent(Err(e)) => r == SendCodeAction::Respond(
            Err(AppError::Database(e)),
        ),
        SendCodeEvent::LastSent(Ok(last)) => {
            if !may_send(last, now, settings.rate_limit_minutes) {
                r matches SendCodeAction::Respond(Err(AppError::TooManyRequests(m))) && m@
                    == wait_message(retry_after(last->0, now, settings.rate_limit_minutes))
            } else {
                r matches SendCodeAction::StoreCode { email, code, expires_at } && email@
                    == ser.email@ && code@.len() == settings.length && (forall|i: int|
                    0 <= i < code@.len() ==> is_code_char(#[trigger] code@[i])) && expires_at
                    == shifted(now, settings.expiration_minutes, 60_000_000)
            }
        },
        SendCodeEvent::Stored { code, result: Err(e) } => r == SendCodeAction::Respond(
            Err(AppError::Database(e)),
        ),
        SendCodeEvent::Stored { code, result: Ok(()) } => r matches SendCodeAction::SendMail(m)
            && code_mail(ser.email@, code@, m),
        SendCodeEvent::Mailed(Err(t)) => r == SendCodeAction::Respond(Err(AppError::Smtp(t))),
        SendCodeEvent::Mailed(Ok(())) => r matches SendCodeAction::Respond(Ok((200, m))) && m@
            == "Verification email sent successfully"@,
    }
}

fn wait_text(minutes: i64) -> (r: String)
    ensures
        r@ == wait_message(minutes as int),
{
    let mut s = owned("Please wait ");
    push_signed_decimal(&mut s, minutes);
    push_str(&mut s, " minutes before requesting another code");
    s
}

/// One step of mailing a verification code. The address must be valid;
/// a code is mailed at most once per `rate_limit_minutes` to an address;
/// a new random code is stored with its expiry, then mailed; success is
/// `200`.
pub fn send_verification_email(
    ser: &SendVerificationEmailSerializer,
    event: SendCodeEvent,
    now: i64,
    settings: &CodeSettings,
) -> (r: SendCodeAction)
    requires
        times_fit(event, now, *settings),
    ensures
        send_code_step(*ser, event, now, *settings, r),
{
    match event {
        SendCodeEvent::Start => match ser.validate() {
            Err(errs) => SendCodeAction::Respond(Err(AppError::Validation(errs))),
            Ok(()) => SendCodeAction::LoadLastSent { email: ser.email.clone() },
        },
        SendCodeEvent::LastSent(Err(e)) => SendCodeAction::Respond(Err(AppError::Database(e))),
        SendCodeEvent::LastSent(Ok(last)) => {
            if let Some(last_time) = last {
                let limit = settings.rate_limit_minutes;
                if now < add_minutes(last_time, limit) {
                    let passed = whole_minutes_between(now, last_time);
                    let retry = limit - passed;
                    return SendCodeAction::Respond(
                        Err(AppError::TooManyRequests(wait_text(retry))),
                    );
                }
            }
            let code = EmailVerificationCode::generate_code(settings.length);
            let expires_at = add_minutes(now, settings.expiration_minutes);
            SendCodeAction::StoreCode { email: ser.email.clone(), code, expires_at }
        },
        SendCodeEvent::Stored { code, result: Err(e) } => SendCodeAction::Respond(
            Err(AppError::Database(e)),
        ),
        SendCodeEvent::Stored { code, result: Ok(()) } => SendCodeAction::SendMail(
            MailDraft {
                from: owned("noreply@ban-xia.com"),
                to: ser.email.clone(),
                subject: owned("Email Verification"),
                body: concat("Your verification code is: ", code.as_str()),
            },
        ),
        SendCodeEvent::Mailed(Err(t)) => SendCodeAction::Respond(Err(AppError::Smtp(t))),
        SendCodeEvent::Mailed(Ok(())) => SendCodeAction::Respond(
            Ok((200, owned("Verification email sent successfully"))),
        ),
    }
}

/// A code is stored (and so mailed) only when the rate limit allows it:
/// the step that stores a code answers the time the last code was stored,
/// and that was at least `rate_limit_minutes` before now, or never.
pub proof fn lemma_code_stored_only_when_allowed(
    ser: SendVerificationEmailSerializer,
    event: SendCodeEvent,
    now: i64,
    settings: CodeSettings,
    r: SendCodeAction,
)
    requires
        send_code_step(ser, event, now, settings, r),
        r is StoreCode,
    ensures
        event matches SendCodeEvent::LastSent(Ok(last)) && may_send(
            last,
            now,
            settings.rate_limit_minutes,
        ),
{
}

/// A refusal asks to wait at least one minute, and, unless the last code
/// seems to come from the future, at most the whole limit.
pub proof fn lemma_refusal_waits_between_one_minute_and_the_limit(
    last: i64,
    now: i64,
    limit_minutes: i64,
)
    requires
        limit_minutes >= 1,
        !may_send(Some(last), now, limit_minutes),
    ensures
        retry_after(last, now, limit_minutes) >= 1,
        now >= last ==> retry_after(last, now, limit_minutes) <= limit_minutes,
{
    let d = now - last;
    if d >= 0 {
        assert(d / 60_000_000 <= limit_minutes - 1) by (nonlinear_arith)
            requires
                d >= 0,
                d < limit_minutes * 60_000_000,
        ;
        assert(d / 60_000_000 >= 0) by (nonlinear_arith)
            requires
                d >= 0,
        ;
    } else {
        assert((-d) / 60_000_000 >= 0) by (nonlinear_arith)
            requires
                d < 0,
        ;
    }
}

} // verus!
