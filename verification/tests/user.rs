use blog::db::{handle_db_error, DbError};
use blog::errors::AppError;
use blog::reply::Reply;
use blog::user::handlers::{
    get_user, list_users, list_users_paged, register, CodeRecord, RegisterAction, RegisterEvent,
};
use blog::user::models::{User, UsernameRule};
use blog::user::serializers::{
    check_email, UserLoginSerializer, UserRegisterSerializer, UserResponse,
};

fn rule() -> UsernameRule {
    UsernameRule::new().unwrap()
}

fn request(username: &str, email: &str, password: &str, code: &str) -> UserRegisterSerializer {
    UserRegisterSerializer {
        username: username.to_string(),
        email: email.to_string(),
        raw_password: password.to_string(),
        email_verification_code: code.to_string(),
    }
}

#[test]
fn usernames_of_letters_digits_underscores_pass() {
    let r = rule();
    assert!(User::validate_username(&"alice_01".to_string(), &r).is_ok());
    assert!(User::validate_username(&"abc".to_string(), &r).is_ok());
    assert!(User::validate_username(&"a23456789012345678_0".to_string(), &r).is_ok());
}

#[test]
fn username_with_other_characters_is_refused() {
    let r = rule();
    let e = User::validate_username(&"bad name".to_string(), &r).unwrap_err();
    assert_eq!(e.code, "Username can only contain letters, numbers, and underscores");
    assert_eq!(e.message, None);
    let e = User::validate_username(&"".to_string(), &r).unwrap_err();
    assert_eq!(e.code, "Username can only contain letters, numbers, and underscores");
    let e = User::validate_username(&"émile".to_string(), &r).unwrap_err();
    assert_eq!(e.code, "Username can only contain letters, numbers, and underscores");
}

#[test]
fn username_length_is_three_to_twenty() {
    let r = rule();
    let e = User::validate_username(&"ab".to_string(), &r).unwrap_err();
    assert_eq!(e.code, "Username must be between 3 and 20 characters long");
    let e = User::validate_username(&"a234567890123456789_1".to_string(), &r).unwrap_err();
    assert_eq!(e.code, "Username must be between 3 and 20 characters long");
}

#[test]
fn pattern_is_checked_before_length() {
    let r = rule();
    let e = User::validate_username(&"a!".to_string(), &r).unwrap_err();
    assert_eq!(e.code, "Username can only contain letters, numbers, and underscores");
}

#[test]
fn certificate_with_at_sign_must_be_an_email() {
    let r = rule();
    assert!(User::validate_certificate(&"bob@example.com".to_string(), &r).is_ok());
    let e = User::validate_certificate(&"bob@".to_string(), &r).unwrap_err();
    assert_eq!(e.code, "Invalid email format");
    let e = User::validate_certificate(&"@example.com".to_string(), &r).unwrap_err();
    assert_eq!(e.code, "Invalid email format");
}

#[test]
fn certificate_without_at_sign_must_be_a_username() {
    let r = rule();
    assert!(User::validate_certificate(&"bob_the_builder".to_string(), &r).is_ok());
    let e = User::validate_certificate(&"bo".to_string(), &r).unwrap_err();
    assert_eq!(e.code, "Username must be between 3 and 20 characters long");
    let e = User::validate_certificate(&"bob.example".to_string(), &r).unwrap_err();
    assert_eq!(e.code, "Username can only contain letters, numbers, and underscores");
}

#[test]
fn email_rule() {
    assert!(check_email(&"a.b-c@mail.example.org".to_string()).is_ok());
    assert!(check_email(&"no-at-sign".to_string()).is_err());
    assert!(check_email(&"".to_string()).is_err());
    let e = check_email(&"x@".to_string()).unwrap_err();
    assert_eq!(e.code, "email");
    assert_eq!(e.message, None);
    assert!(check_email(&"x@y.z".to_string()).is_ok());
}

#[test]
fn register_request_lists_failed_fields_in_order() {
    let r = rule();
    let ser = request("x", "nope", "short", "C0DE");
    let errs = ser.validate(&r).unwrap_err();
    let fields: Vec<&str> = errs.fields.iter().map(|f| f.field.as_str()).collect();
    assert_eq!(fields, vec!["username", "email", "raw_password"]);
    assert_eq!(errs.fields[0].errors.len(), 1);
    assert_eq!(errs.fields[0].errors[0].code, "Username must be between 3 and 20 characters long");
    assert_eq!(errs.fields[1].errors[0].code, "email");
    assert_eq!(errs.fields[2].errors[0].code, "invalid_password_length");

    let ser = request("good_name", "nope", "Passw0rd", "C0DE");
    let errs = ser.validate(&r).unwrap_err();
    assert_eq!(errs.fields.len(), 1);
    assert_eq!(errs.fields[0].field, "email");

    assert!(request("good_name", "g@n.io", "Passw0rd", "C0DE").validate(&r).is_ok());
}

#[test]
fn login_request_validation() {
    let r = rule();
    let ok = UserLoginSerializer { certificate: "x@y.io".to_string(), raw_password: "Passw0rd".to_string() };
    assert!(ok.validate(&r).is_ok());
    let bad = UserLoginSerializer { certificate: "x@".to_string(), raw_password: "pass".to_string() };
    let errs = bad.validate(&r).unwrap_err();
    assert_eq!(errs.fields.len(), 2);
    assert_eq!(errs.fields[0].field, "certificate");
    assert_eq!(errs.fields[0].errors[0].code, "Invalid email format");
    assert_eq!(errs.fields[1].field, "raw_password");
}

#[test]
fn user_response_validation() {
    let r = rule();
    let u = UserResponse { id: 1, username: "ann".to_string(), email: "ann@b.c".to_string(), created_at: 0 };
    assert!(u.validate(&r).is_ok());
    let u = UserResponse { id: 1, username: "an n".to_string(), email: "ann".to_string(), created_at: 0 };
    assert_eq!(u.validate(&r).unwrap_err().fields.len(), 2);
}

#[test]
fn unique_violations_become_conflicts() {
    let e = DbError::Database {
        code: Some("23505".to_string()),
        message: "duplicate key value violates unique constraint \"users_username_key\"".to_string(),
        text: "error returned from database: duplicate key".to_string(),
    };
    assert!(matches!(handle_db_error(e), AppError::Conflict(f) if f == "username"));
    let e = DbError::Database {
        code: Some("23505".to_string()),
        message: "duplicate key value violates unique constraint \"users_email_key\"".to_string(),
        text: "t".to_string(),
    };
    assert!(matches!(handle_db_error(e), AppError::Conflict(f) if f == "email"));
    let e = DbError::Database {
        code: Some("23505".to_string()),
        message: "username or email taken".to_string(),
        text: "t".to_string(),
    };
    assert!(matches!(handle_db_error(e), AppError::Conflict(f) if f == "username"));
}

#[test]
fn other_database_errors_stay_database_errors() {
    let e = DbError::Database {
        code: Some("23503".to_string()),
        message: "username fk".to_string(),
        text: "fk violation".to_string(),
    };
    match handle_db_error(e) {
        AppError::Database(DbError::Database { code, .. }) => assert_eq!(code.as_deref(), Some("23503")),
        _ => panic!("expected a database error"),
    }
    match handle_db_error(DbError::Other { text: "connection reset".to_string() }) {
        AppError::Database(DbError::Other { text }) => assert_eq!(text, "connection reset"),
        _ => panic!("expected a database error"),
    }
    let e = DbError::Database { code: None, message: "email".to_string(), text: "x".to_string() };
    assert!(matches!(handle_db_error(e), AppError::Database(_)));
}

#[test]
fn user_listing_replies() {
    match list_users(Ok(vec![])) {
        Reply::Json(200, v) => assert!(v.is_empty()),
        _ => panic!("expected 200"),
    }
    match list_users(Err(DbError::RowNotFound)) {
        Reply::Text(500, m) => assert_eq!(m, "Failed to fetch users"),
        _ => panic!("expected 500"),
    }
    let u = UserResponse { id: 3, username: "ann".to_string(), email: "a@b.c".to_string(), created_at: 5 };
    match get_user(Ok(Some(u))) {
        Reply::Json(200, u) => assert_eq!(u.id, 3),
        _ => panic!("expected 200"),
    }
    match get_user(Ok(None)) {
        Reply::Text(404, m) => assert_eq!(m, "User not found"),
        _ => panic!("expected 404"),
    }
    match get_user(Err(DbError::RowNotFound)) {
        Reply::Text(500, m) => assert_eq!(m, "Failed to fetch user"),
        _ => panic!("expected 500"),
    }
}

#[test]
fn page_window() {
    assert_eq!(list_users_paged(1, 20), (20, 0));
    assert_eq!(list_users_paged(3, 10), (10, 20));
    assert_eq!(list_users_paged(0, 10), (10, -10));
}

#[test]
fn registration_stores_lowercase_names() {
    let r = rule();
    let ser = request("New_User", "New@User.IO", "Passw0rd_", "ABC123");
    let now: i64 = 1_700_000_000_000_000;
    let good = CodeRecord { code: "ABC123".to_string(), expires_at: now };
    match register(&ser, RegisterEvent::CodeFound(Ok(Some(good))), now, &r) {
        RegisterAction::InsertUser { username, email, password_hash } => {
            assert_eq!(username, "new_user");
            assert_eq!(email, "new@user.io");
            assert!(password_hash.starts_with("$argon2id$v=19$"));
        }
        _ => panic!("expected the insert"),
    }
}

#[test]
fn registration_walks_through_its_checks() {
    let r = rule();
    let ser = request("new_user", "new@user.io", "Passw0rd_", "ABC123");
    let now: i64 = 1_700_000_000_000_000;

    match register(&ser, RegisterEvent::Start, now, &r) {
        RegisterAction::CheckEmail { email } => assert_eq!(email, "new@user.io"),
        _ => panic!("expected the email check"),
    }
    match register(&ser, RegisterEvent::EmailTaken(Ok(Some(true))), now, &r) {
        RegisterAction::Respond(Err(AppError::Conflict(f))) => assert_eq!(f, "email"),
        _ => panic!("expected a conflict"),
    }
    assert!(matches!(
        register(&ser, RegisterEvent::EmailTaken(Ok(None)), now, &r),
        RegisterAction::Respond(Err(AppError::Database(DbError::RowNotFound)))
    ));
    match register(&ser, RegisterEvent::EmailTaken(Ok(Some(false))), now, &r) {
        RegisterAction::LoadCode { email } => assert_eq!(email, "new@user.io"),
        _ => panic!("expected the code lookup"),
    }
    match register(&ser, RegisterEvent::CodeFound(Ok(None)), now, &r) {
        RegisterAction::Respond(Err(AppError::NotFound(m))) => assert_eq!(m, "email_verification_code"),
        _ => panic!("expected not found"),
    }
    let expired = CodeRecord { code: "ABC123".to_string(), expires_at: now - 1 };
    match register(&ser, RegisterEvent::CodeFound(Ok(Some(expired))), now, &r) {
        RegisterAction::Respond(Err(AppError::Expired(m))) => assert_eq!(m, "email_verification_code"),
        _ => panic!("expected expired"),
    }
    let wrong = CodeRecord { code: "ABC124".to_string(), expires_at: now };
    match register(&ser, RegisterEvent::CodeFound(Ok(Some(wrong))), now, &r) {
        RegisterAction::Respond(Err(AppError::Invalid(m))) => assert_eq!(m, "email_verification_code"),
        _ => panic!("expected invalid"),
    }
    let good = CodeRecord { code: "ABC123".to_string(), expires_at: now };
    match register(&ser, RegisterEvent::CodeFound(Ok(Some(good))), now, &r) {
        RegisterAction::InsertUser { username, email, password_hash } => {
            assert_eq!(username, "new_user");
            assert_eq!(email, "new@user.io");
            assert!(blog::user::pwd::Password(password_hash).verify("Passw0rd_".to_string()));
        }
        _ => panic!("expected the insert"),
    }
    assert!(matches!(
        register(&ser, RegisterEvent::Inserted(Ok(())), now, &r),
        RegisterAction::Respond(Ok(201))
    ));
    let dup = DbError::Database {
        code: Some("23505".to_string()),
        message: "Key (username)=(new_user) already exists.".to_string(),
        text: "dup".to_string(),
    };
    match register(&ser, RegisterEvent::Inserted(Err(dup)), now, &r) {
        RegisterAction::Respond(Err(AppError::Conflict(f))) => assert_eq!(f, "username"),
        _ => panic!("expected a conflict"),
    }
}

#[test]
fn registration_with_invalid_fields_is_refused_after_the_code_check() {
    let r = rule();
    let ser = request("x", "new@user.io", "weak", "ABC123");
    let now: i64 = 10;
    let good = CodeRecord { code: "ABC123".to_string(), expires_at: 10 };
    match register(&ser, RegisterEvent::CodeFound(Ok(Some(good))), now, &r) {
        RegisterAction::Respond(Err(AppError::Validation(errs))) => {
            assert_eq!(errs.fields.len(), 2);
            assert_eq!(errs.fields[0].field, "username");
            assert_eq!(errs.fields[1].field, "raw_password");
        }
        _ => panic!("expected a validation error"),
    }
}
