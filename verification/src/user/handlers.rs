//! What the user endpoints decide. Each request is a conversation with the
//! database: the caller runs it, handing each answer back as an event, and
//! performs the action each step returns until the step responds.
use vstd::prelude::*;

use crate::clock::{add_hours, fits_i64, shifted, unix_seconds};
use crate::db::{answers_db_error, handle_db_error, DbError};
use crate::errors::{failed_checks, reports, AppError};
use crate::mail::handlers::{send_code_step, CodeSettings, SendCodeAction, SendCodeEvent};
use crate::mail::serializers::SendVerificationEmailSerializer;
use crate::reply::Reply;
use crate::text::{
    all_ascii, ascii_lower, concat, has_prefix, lemma_ascii_lower_has_no_capital, lowercase,
    no_capital, owned, to_lowercase, utf8_len,
};
use crate::user::jwt::{
    claim_seconds, claims_in, generate_token, jwt_decode_rs256, jwt_payload, jwt_rs256,
    jwt_verifies, lemma_claims_in_json, token_claims_json, Claims, SigningKey, VerifyingKey,
};
use crate::user::models::UsernameRule;
use crate::user::pwd::{argon2_accepts, argon2id_prefix, phc_parses, Password};
use crate::user::serializers::{
    login_checks, register_checks, RefreshTokenResponse, UserLoginResponse, UserLoginSerializer,
    UserRegisterSerializer, UserResponse,
};

verus! {

broadcast use vstd::string::group_string_axioms;

/// All users: `200` with the list, or `500` when the query fails.
pub fn list_users(result: Result<Vec<UserResponse>, DbError>) -> (r: Reply<Vec<UserResponse>>)
    ensures
        match result {
            Ok(users) => r == Reply::Json(200, users),
            Err(_) => r matches Reply::Text(500, m) && m@ == "Failed to fetch users"@,
        },
{
    match result {
        Ok(users) => Reply::Json(200, users),
        Err(_) => Reply::Text(500, owned("Failed to fetch users")),
    }
}

/// One user: `200` with it, `404` when there is none with the id, `500`
/// when the query fails.
pub fn get_user(result: Result<Option<UserResponse>, DbError>) -> (r: Reply<UserResponse>)
    ensures
        match result {
            Ok(Some(user)) => r == Reply::Json(200, user),
            Ok(None) => r matches Reply::Text(404, m) && m@ == "User not found"@,
            Err(_) => r matches Reply::Text(500, m) && m@ == "Failed to fetch user"@,
        },
{
    match result {
        Ok(Some(user)) => Reply::Json(200, user),
        Ok(None) => Reply::Text(404, owned("User not found")),
        Err(_) => Reply::Text(500, owned("Failed to fetch user")),
    }
}

/// The window of one page of users, ordered by id: `(limit, offset)`,
/// with pages counted from 1. The page is answered as `list_users` answers.
pub fn list_users_paged(page: i64, page_size: i64) -> (r: (i64, i64))
    requires
        fits_i64(page - 1),
        fits_i64((page - 1) * page_size),
    ensures
        r.0 == page_size,
        r.1 == (page - 1) * page_size,
{
    (page_size, (page - 1) * page_size)
}

/// The verification code stored for an email address.
pub struct CodeRecord {
    pub code: String,
    /// Microseconds since the Unix epoch.
    pub expires_at: i64,
}

/// What the database answered, step by step, during a registration.
pub enum RegisterEvent {
    /// The request has just arrived.
    Start,
    /// Whether a user already has the email (`None`: the query gave no row).
    EmailTaken(Result<Option<bool>, DbError>),
    /// The code stored for the email, if any.
    CodeFound(Result<Option<CodeRecord>, DbError>),
    /// The outcome of inserting the user.
    Inserted(Result<(), DbError>),
}

/// What to do next in a registration.
pub enum RegisterAction {
    /// Ask whether a user has this email.
    CheckEmail { email: String },
    /// Load the verification code stored for this email.
    LoadCode { email: String },
    /// Insert this user.
    InsertUser { username: String, email: String, password_hash: String },
    /// Answer the request: a status, or an error.
    Respond(Result<u16, AppError>),
}

/// What is stored of the given text `given`: its lowercase form, which on
/// ASCII text is the text with its capitals made small.
pub open spec fn stored_lowercase(stored: Seq<char>, given: Seq<char>) -> bool {
    &&& stored == lowercase(given)
    &&& all_ascii(given) ==> stored == ascii_lower(given)
}

/// The action that answers `event` in the registration `ser` at `now`.
pub open spec fn register_step(
    ser: UserRegisterSerializer,
    event: RegisterEvent,
    now: i64,
    r: RegisterAction,
) -> bool {
    match event {
        RegisterEvent::Start => r matches RegisterAction::CheckEmail { email } && email@
            == ser.email@,
        RegisterEvent::EmailTaken(Err(e)) => r == RegisterAction::Respond(
            Err(AppError::Database(e)),
        ),
        RegisterEvent::EmailTaken(Ok(None)) => r == RegisterAction::Respond(
            Err(AppError::Database(DbError::RowNotFound)),
        ),
        RegisterEvent::EmailTaken(Ok(Some(true))) => r matches RegisterAction::Respond(
            Err(AppError::Conflict(f)),
        ) && f@ == "email"@,
        RegisterEvent::EmailTaken(Ok(Some(false))) => r matches RegisterAction::LoadCode { email }
            && email@ == ser.email@,
        RegisterEvent::CodeFound(Err(e)) => r == RegisterAction::Respond(
            Err(AppError::Database(e)),
        ),
        RegisterEvent::CodeFound(Ok(None)) => r matches RegisterAction::Respond(
            Err(AppError::NotFound(m)),
        ) && m@ == "email_verification_code"@,
        RegisterEvent::CodeFound(Ok(Some(rec))) => {
            let checks = register_checks(ser.username@, ser.email@, ser.raw_password@);
            if rec.expires_at < now {
                r matches RegisterAction::Respond(Err(AppError::Expired(m))) && m@
                    == "email_verification_code"@
            } else if rec.code@ != ser.email_verification_code@ {
                r matches RegisterAction::Respond(Err(AppError::Invalid(m))) && m@
                    == "email_verification_code"@
            } else if failed_checks(checks).len() > 0 {
                r matches RegisterAction::Respond(Err(AppError::Validation(errs))) && reports(
                    Err(errs),
                    checks,
                )
            } else {
                r matches RegisterAction::InsertUser { username, email, password_hash }
                    && stored_lowercase(username@, ser.username@) && stored_lowercase(
                    email@,
                    ser.email@,
                ) && Password(password_hash).hashes(ser.raw_password@) && has_prefix(
                    password_hash@,
                    argon2id_prefix(),
                )
            }
        },
        RegisterEvent::Inserted(Err(e)) => r matches RegisterAction::Respond(Err(a))
            && answers_db_error(e, a),
        RegisterEvent::Inserted(Ok(())) => r == RegisterAction::Respond(Ok(201)),
    }
}

/// One step of a registration. The email must be free and its mailed code
/// present, unexpired and equal to the one given; then the fields must be
/// valid; only then is the user inserted, its username and email in lower
/// case, with the Argon2id hash of the password. A unique-key violation on
/// insert is a conflict on the field; success is `201 Created`.
pub fn register(
    ser: &UserRegisterSerializer,
    event: RegisterEvent,
    now: i64,
    rule: &UsernameRule,
) -> (r: RegisterAction)
    requires
        utf8_len(ser.raw_password@) <= 0xFFFF_FFFF,
    ensures
        register_step(*ser, event, now, r),
{
    match event {
        RegisterEvent::Start => RegisterAction::CheckEmail { email: ser.email.clone() },
        RegisterEvent::EmailTaken(Err(e)) => RegisterAction::Respond(Err(AppError::Database(e))),
        RegisterEvent::EmailTaken(Ok(None)) => RegisterAction::Respond(
            Err(AppError::Database(DbError::RowNotFound)),
        ),
        RegisterEvent::EmailTaken(Ok(Some(taken))) => {
            if taken {
                RegisterAction::Respond(Err(AppError::Conflict(owned("email"))))
            } else {
                RegisterAction::LoadCode { email: ser.email.clone() }
            }
        },
        RegisterEvent::CodeFound(Err(e)) => RegisterAction::Respond(Err(AppError::Database(e))),
        RegisterEvent::CodeFound(Ok(None)) => RegisterAction::Respond(
            Err(AppError::NotFound(owned("email_verification_code"))),
        ),
        RegisterEvent::CodeFound(Ok(Some(rec))) => {
            if rec.expires_at < now {
                return RegisterAction::Respond(
                    Err(AppError::Expired(owned("email_verification_code"))),
                );
            }
            if rec.code != ser.email_verification_code {
                return RegisterAction::Respond(
                    Err(AppError::Invalid(owned("email_verification_code"))),
                );
            }
            match ser.validate(rule) {
                Err(errs) => RegisterAction::Respond(Err(AppError::Validation(errs))),
                Ok(()) => {
                    let pwd = Password::new(ser.raw_password.clone());
                    RegisterAction::InsertUser {
                        username: to_lowercase(ser.username.as_str()),
                        email: to_lowercase(ser.email.as_str()),
                        password_hash: pwd.0,
                    }
                },
            }
        },
        RegisterEvent::Inserted(Err(e)) => RegisterAction::Respond(Err(handle_db_error(e))),
        RegisterEvent::Inserted(Ok(())) => RegisterAction::Respond(Ok(201)),
    }
}

/// The id and the stored hash of the user a login certificate names.
pub struct StoredCredentials {
    pub id: i32,
    pub password_hash: String,
}

/// How long tokens hold, in hours.
pub struct TokenLifetimes {
    pub access_hours: i64,
    pub refresh_hours: i64,
}

/// The instant `hours` hours after `now` is representable.
pub open spec fn later_fits(now: i64, hours: i64) -> bool {
    fits_i64(hours * 3_600_000_000) && fits_i64(shifted(now, hours, 3_600_000_000))
}

/// What the database answered, step by step, during a login.
pub enum LoginEvent {
    /// The request has just arrived.
    Start,
    /// The user whose username or email is the certificate, if any.
    UserFound(Result<Option<StoredCredentials>, DbError>),
}

/// What to do next in a login.
pub enum LoginAction {
    /// Find the user whose username or email is this certificate.
    FindUser { certificate: String },
    /// Answer the request: the tokens, or an error.
    Respond(Result<UserLoginResponse, AppError>),
}

/// The token `generate_token` makes for `id`, valid for `hours` hours from
/// `now`.
pub open spec fn token_for(key: SigningKey, id: i32, now: i64, hours: i64) -> Option<Seq<char>> {
    jwt_rs256(
        key.pem_spec(),
        token_claims_json(id, shifted(now, hours, 3_600_000_000) as i64, now),
    )
}

/// The action that answers `event` in the login `ser` at `now`.
pub open spec fn login_step(
    ser: UserLoginSerializer,
    event: LoginEvent,
    now: i64,
    lifetimes: TokenLifetimes,
    key: SigningKey,
    r: LoginAction,
) -> bool {
    match event {
        LoginEvent::Start => {
            let checks = login_checks(ser.certificate@, ser.raw_password@);
            if failed_checks(checks).len() > 0 {
                r matches LoginAction::Respond(Err(AppError::Validation(errs))) && reports(
                    Err(errs),
                    checks,
                )
            } else {
                r matches LoginAction::FindUser { certificate } && certificate@ == ser.certificate@
            }
        },
        LoginEvent::UserFound(Err(e)) => r == LoginAction::Respond(Err(AppError::Database(e))),
        LoginEvent::UserFound(Ok(None)) => r matches LoginAction::Respond(
            Err(AppError::InvalidCredentials(m)),
        ) && m@ == "login_certificate"@,
        LoginEvent::UserFound(Ok(Some(u))) => {
            let access = token_for(key, u.id, now, lifetimes.access_hours);
            let refresh = token_for(key, u.id, now, lifetimes.refresh_hours);
            if !argon2_accepts(u.password_hash@, ser.raw_password@) {
                r matches LoginAction::Respond(Err(AppError::Invalid(m))) && m@ == "password"@
            } else if access is None || refresh is None {
                r matches LoginAction::Respond(Err(AppError::Internal(m))) && has_prefix(
                    m@,
                    "Failed to generate JWT token: "@,
                )
            } else {
                r matches LoginAction::Respond(Ok(resp)) && Some(resp.access_token@) == access
                    && Some(resp.refresh_token@) == refresh
            }
        },
    }
}

/// The error that answers a failed signature, with the given lead.
fn token_failure(lead: &str, text: &String) -> (r: AppError)
    ensures
        r matches AppError::Internal(m) && m@ == lead@ + text@ && has_prefix(m@, lead@),
{
    let m = concat(lead, text.as_str());
    assert(m@.subrange(0, lead@.len() as int) =~= lead@);
    AppError::Internal(m)
}

/// One step of a login. The fields must be valid; the certificate must
/// name a user; the password must verify against the user's hash; then an
/// access token and a refresh token are signed for the user, issued `now`.
/// The stored hash of a found user must be a valid PHC string.
pub fn login(
    ser: &UserLoginSerializer,
    event: LoginEvent,
    now: i64,
    lifetimes: &TokenLifetimes,
    key: &SigningKey,
    rule: &UsernameRule,
) -> (r: LoginAction)
    requires
        event matches LoginEvent::UserFound(Ok(Some(u))) ==> phc_parses(u.password_hash@),
        later_fits(now, lifetimes.access_hours),
        later_fits(now, lifetimes.refresh_hours),
    ensures
        login_step(*ser, event, now, *lifetimes, *key, r),
{
    match event {
        LoginEvent::Start => match ser.validate(rule) {
            Err(errs) => LoginAction::Respond(Err(AppError::Validation(errs))),
            Ok(()) => LoginAction::FindUser { certificate: ser.certificate.clone() },
        },
        LoginEvent::UserFound(Err(e)) => LoginAction::Respond(Err(AppError::Database(e))),
        LoginEvent::UserFound(Ok(None)) => LoginAction::Respond(
            Err(AppError::InvalidCredentials(owned("login_certificate"))),
        ),
        LoginEvent::UserFound(Ok(Some(u))) => {
            let stored = Password(u.password_hash);
            if !stored.verify(ser.raw_password.clone()) {
                return LoginAction::Respond(Err(AppError::Invalid(owned("password"))));
            }
            let access_until = add_hours(now, lifetimes.access_hours);
            let refresh_until = add_hours(now, lifetimes.refresh_hours);
            let access_token = match generate_token(u.id, access_until, now, key) {
                Ok(t) => t,
                Err(e) => {
                    return LoginAction::Respond(
                        Err(token_failure("Failed to generate JWT token: ", &e.text)),
                    );
                },
            };
            let refresh_token = match generate_token(u.id, refresh_until, now, key) {
                Ok(t) => t,
                Err(e) => {
                    return LoginAction::Respond(
                        Err(token_failure("Failed to generate JWT token: ", &e.text)),
                    );
                },
            };
            LoginAction::Respond(Ok(UserLoginResponse { access_token, refresh_token }))
        },
    }
}

/// `login`, for a found user whose stored hash may be malformed: `None`
/// (and nothing done) when it is not a valid PHC string.
pub fn login_checked(
    ser: &UserLoginSerializer,
    event: LoginEvent,
    now: i64,
    lifetimes: &TokenLifetimes,
    key: &SigningKey,
    rule: &UsernameRule,
) -> (r: Option<LoginAction>)
    requires
        later_fits(now, lifetimes.access_hours),
        later_fits(now, lifetimes.refresh_hours),
    ensures
        (event matches LoginEvent::UserFound(Ok(Some(u))) && !phc_parses(u.password_hash@)) ==> r
            is None,
        !(event matches LoginEvent::UserFound(Ok(Some(u))) && !phc_parses(u.password_hash@)) ==> (
        r matches Some(a) && login_step(*ser, event, now, *lifetimes, *key, a)),
{
    if let LoginEvent::UserFound(Ok(Some(u))) = &event {
        if !Password::is_well_formed(&u.password_hash) {
            return None;
        }
    }
    Some(login(ser, event, now, lifetimes, key, rule))
}

/// How a refresh is answered once the payload of its token is known
/// (`None` when the token did not decode and validate): a payload that is
/// not the JSON of a set of claims is an invalid token; otherwise a new
/// access token is signed for the claims' subject, issued `now` and valid
/// for `hours` hours.
pub open spec fn refresh_answer(
    payload: Option<Seq<char>>,
    now: i64,
    hours: i64,
    key: SigningKey,
    r: Result<RefreshTokenResponse, AppError>,
) -> bool {
    match payload {
        None => r == Err::<RefreshTokenResponse, AppError>(AppError::InvalidToken),
        Some(p) => match claims_in(p) {
            None => r == Err::<RefreshTokenResponse, AppError>(AppError::InvalidToken),
            Some(c) => match token_for(key, c.sub, now, hours) {
                Some(t) => r matches Ok(resp) && resp.access_token@ == t,
                None => r matches Err(AppError::Internal(m)) && has_prefix(
                    m@,
                    "Failed to generate new JWT token: "@,
                ),
            },
        },
    }
}

/// Answers a refresh whose token carried the claims JSON `payload`, or
/// `None` when the token did not decode and validate.
pub fn refresh_with_payload(
    payload: Option<String>,
    now: i64,
    access_hours: i64,
    key: &SigningKey,
) -> (r: Result<RefreshTokenResponse, AppError>)
    requires
        later_fits(now, access_hours),
    ensures
        refresh_answer(
            match payload {
                Some(p) => Some(p@),
                None => None,
            },
            now,
            access_hours,
            *key,
            r,
        ),
{
    let p = match payload {
        None => {
            return Err(AppError::InvalidToken);
        },
        Some(p) => p,
    };
    match Claims::from_json(p.as_str()) {
        None => Err(AppError::InvalidToken),
        Some(c) => {
            let until = add_hours(now, access_hours);
            match generate_token(c.sub, until, now, key) {
                Ok(t) => Ok(RefreshTokenResponse { access_token: t }),
                Err(e) => Err(token_failure("Failed to generate new JWT token: ", &e.text)),
            }
        },
    }
}

/// Whether a token whose claims say it expires at the Unix second `exp`
/// counts as expired at `now`: more than 60 seconds (the leeway of
/// `Validation::new`) have passed since `exp`.
pub open spec fn token_expired(exp: usize, now: i64) -> bool {
    (exp as int) + 60 < now / 1_000_000
}

/// How a refresh with the token `token` is answered at `now`, given the
/// PEM text of the verifying key: a token whose signature verifies, whose
/// payload is the JSON of a set of claims, and which has not expired is
/// answered with a new access token for the claims' subject; any other
/// token is invalid.
pub open spec fn refresh_token_answer(
    pem: Seq<u8>,
    token: Seq<char>,
    now: i64,
    hours: i64,
    key: SigningKey,
    r: Result<RefreshTokenResponse, AppError>,
) -> bool {
    if jwt_verifies(pem, token) && jwt_payload(token) is Some && claims_in(jwt_payload(token)->0) is Some {
        let c = claims_in(jwt_payload(token)->0)->0;
        if token_expired(c.exp, now) {
            r == Err::<RefreshTokenResponse, AppError>(AppError::InvalidToken)
        } else {
            refresh_answer(jwt_payload(token), now, hours, key, r)
        }
    } else {
        r == Err::<RefreshTokenResponse, AppError>(AppError::InvalidToken)
    }
}

/// Answers a refresh with the refresh token `token`: it must decode with
/// `verifying` (RS256, signature verified), carry a set of claims, and not
/// have expired at `now`; then a new access token is signed with `signing`
/// for the subject of its claims, issued `now`.
pub fn refresh_token(
    token: &str,
    now: i64,
    access_hours: i64,
    verifying: &VerifyingKey,
    signing: &SigningKey,
) -> (r: Result<RefreshTokenResponse, AppError>)
    requires
        later_fits(now, access_hours),
    ensures
        r == Err::<RefreshTokenResponse, AppError>(AppError::InvalidToken) || jwt_verifies(
            verifying.pem_spec(),
            token@,
        ),
        r == Err::<RefreshTokenResponse, AppError>(AppError::InvalidToken) || refresh_answer(
            jwt_payload(token@),
            now,
            access_hours,
            *signing,
            r,
        ),
        refresh_token_answer(verifying.pem_spec(), token@, now, access_hours, *signing, r),
{
    let payload = jwt_decode_rs256(token, verifying);
    if let Some(p) = &payload {
        if let Some(c) = Claims::from_json(p.as_str()) {
            let now_s = unix_seconds(now);
            if (c.exp as i128) + 60 < (now_s as i128) {
                return Err(AppError::InvalidToken);
            }
        }
    }
    refresh_with_payload(payload, now, access_hours, signing)
}

/// Whether `token` is live for a refresh at `now` with the key in `pem`:
/// its signature verifies, its payload is the JSON of a set of claims, and
/// its `exp` is at most 60 seconds past.
pub open spec fn live_refresh_token(pem: Seq<u8>, token: Seq<char>, now: i64) -> bool {
    &&& jwt_verifies(pem, token)
    &&& jwt_payload(token) is Some
    &&& claims_in(jwt_payload(token)->0) is Some
    &&& (claims_in(jwt_payload(token)->0)->0.exp as int) + 60 >= now / 1_000_000
}

/// A live refresh token is never refused: it is answered with an access
/// token for the subject of its claims, issued `now` and valid for `hours`
/// hours, whenever signing succeeds; and a refresh is refused as an
/// invalid token exactly when the token is not live.
pub proof fn lemma_live_refresh_token_is_honoured(
    pem: Seq<u8>,
    token: Seq<char>,
    now: i64,
    hours: i64,
    key: SigningKey,
    r: Result<RefreshTokenResponse, AppError>,
)
    requires
        refresh_token_answer(pem, token, now, hours, key, r),
    ensures
        r == Err::<RefreshTokenResponse, AppError>(AppError::InvalidToken) <==> !live_refresh_token(
            pem,
            token,
            now,
        ),
        live_refresh_token(pem, token, now) ==> match token_for(
            key,
            claims_in(jwt_payload(token)->0)->0.sub,
            now,
            hours,
        ) {
            Some(t) => r matches Ok(resp) && resp.access_token@ == t,
            None => r matches Err(AppError::Internal(_)),
        },
{
}

/// A refresh token made by `generate_token` is answered, once decoded,
/// with an access token for the user it was made for.
pub proof fn lemma_refresh_answers_for_issued_subject(
    user_id: i32,
    expires_at: i64,
    issued_at: i64,
    now: i64,
    hours: i64,
    key: SigningKey,
    r: Result<RefreshTokenResponse, AppError>,
)
    requires
        refresh_answer(Some(token_claims_json(user_id, expires_at, issued_at)), now, hours, key, r),
    ensures
        match token_for(key, user_id, now, hours) {
            Some(t) => r matches Ok(resp) && resp.access_token@ == t,
            None => r matches Err(AppError::Internal(m)) && has_prefix(
                m@,
                "Failed to generate new JWT token: "@,
            ),
        },
{
    lemma_claims_in_json(
        Claims { sub: user_id, exp: claim_seconds(expires_at), iat: claim_seconds(issued_at) },
    );
}

/// A registration writes a user only once everything checked out: the
/// step that inserts answers a stored code that has not expired and equals
/// the one given, for a request whose fields are all valid, and what it
/// inserts is the given username and email in lower case with a hash of the
/// given password.
pub proof fn lemma_register_inserts_only_after_checks(
    ser: UserRegisterSerializer,
    event: RegisterEvent,
    now: i64,
    r: RegisterAction,
)
    requires
        register_step(ser, event, now, r),
        r is InsertUser,
    ensures
        event matches RegisterEvent::CodeFound(Ok(Some(rec))) && rec.expires_at >= now
            && rec.code@ == ser.email_verification_code@,
        failed_checks(register_checks(ser.username@, ser.email@, ser.raw_password@)).len() == 0,
        r matches RegisterAction::InsertUser { username, email, password_hash }
            && stored_lowercase(username@, ser.username@) && stored_lowercase(email@, ser.email@)
            && Password(password_hash).hashes(ser.raw_password@),
{
}

/// A registration looks its mailed code up under exactly the address the
/// code was stored under: for the same address, the lookup of the
/// registration step names the same email as the store of the mailing
/// step, whatever its case. The existence check names it too.
pub proof fn lemma_code_looked_up_where_stored(
    reg: UserRegisterSerializer,
    now: i64,
    r_check: RegisterAction,
    r_load: RegisterAction,
    mail: SendVerificationEmailSerializer,
    last: Option<i64>,
    mail_now: i64,
    settings: CodeSettings,
    r_store: SendCodeAction,
)
    requires
        reg.email@ == mail.email@,
        register_step(reg, RegisterEvent::Start, now, r_check),
        register_step(reg, RegisterEvent::EmailTaken(Ok(Some(false))), now, r_load),
        send_code_step(mail, SendCodeEvent::LastSent(Ok(last)), mail_now, settings, r_store),
        r_store is StoreCode,
    ensures
        r_load matches RegisterAction::LoadCode { email } && r_store matches SendCodeAction::StoreCode {
            email: stored,
            ..
        } && email@ == stored@,
        r_check matches RegisterAction::CheckEmail { email } && email@ == mail.email@,
{
}

/// Registration stores usernames and emails in lower case: whatever step
/// inserts a user inserts the lowercase forms of the given username and
/// email, and where those are ASCII, no capital letter is left in them.
pub proof fn lemma_register_stores_lowercase(
    ser: UserRegisterSerializer,
    event: RegisterEvent,
    now: i64,
    r: RegisterAction,
)
    requires
        register_step(ser, event, now, r),
    ensures
        r matches RegisterAction::InsertUser { username, email, .. } ==> {
            &&& username@ == lowercase(ser.username@)
            &&& email@ == lowercase(ser.email@)
            &&& all_ascii(ser.username@) ==> no_capital(username@)
            &&& all_ascii(ser.email@) ==> no_capital(email@)
        },
{
    if let RegisterAction::InsertUser { username, email, .. } = r {
        if all_ascii(ser.username@) {
            lemma_ascii_lower_has_no_capital(ser.username@);
        }
        if all_ascii(ser.email@) {
            lemma_ascii_lower_has_no_capital(ser.email@);
        }
    }
}

/// A login hands out tokens only for the right password: a step that
/// answers with tokens answers a found user against whose stored hash the
/// given password verifies, and the tokens are the user's, issued now.
pub proof fn lemma_login_tokens_only_for_right_password(
    ser: UserLoginSerializer,
    event: LoginEvent,
    now: i64,
    lifetimes: TokenLifetimes,
    key: SigningKey,
    r: LoginAction,
)
    requires
        login_step(ser, event, now, lifetimes, key, r),
        r matches LoginAction::Respond(Ok(_)),
    ensures
        event matches LoginEvent::UserFound(Ok(Some(u))) && argon2_accepts(
            u.password_hash@,
            ser.raw_password@,
        ) && (r matches LoginAction::Respond(Ok(resp)) && Some(resp.access_token@) == token_for(
            key,
            u.id,
            now,
            lifetimes.access_hours,
        ) && Some(resp.refresh_token@) == token_for(key, u.id, now, lifetimes.refresh_hours)),
{
}

} // verus!
