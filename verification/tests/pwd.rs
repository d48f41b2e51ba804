use blog::user::pwd::Password;

#[test]
fn test_pwd_hash_and_verify() {
    let raw = "my_password".to_string();
    let pwd = Password::new(raw.clone());

    assert!(pwd.verify(raw));
}

#[test]
fn wrong_password_does_not_verify() {
    let pwd = Password::new("my_password".to_string());
    assert!(!pwd.verify("my_passw0rd".to_string()));
    assert!(pwd.0.starts_with("$argon2id$"));
    assert!(Password::is_well_formed(&pwd.0));
}

#[test]
fn two_hashes_of_one_password_differ_and_both_verify() {
    let a = Password::new("Secret_123".to_string());
    let b = Password::new("Secret_123".to_string());
    assert_ne!(a.0, b.0);
    assert!(a.verify("Secret_123".to_string()));
    assert!(b.verify("Secret_123".to_string()));
}

#[test]
fn check_reports_malformed_hash() {
    let p = Password("not a phc string".to_string());
    assert_eq!(p.check("anything".to_string()), None);
    assert!(!Password::is_well_formed(&p.0));
    let good = Password::new("abcdEFGH".to_string());
    assert_eq!(good.check("abcdEFGH".to_string()), Some(true));
    assert_eq!(good.check("abcdEFGh".to_string()), Some(false));
}

#[test]
fn short_password_is_refused_for_length() {
    let e = Password::validate_raw_password(&"Ab_1".to_string()).unwrap_err();
    assert_eq!(e.code, "invalid_password_length");
    assert_eq!(e.message.as_deref(), Some("Password must be at least 8 characters long"));
}

#[test]
fn one_kind_of_character_is_refused_for_complexity() {
    let e = Password::validate_raw_password(&"abcdefgh".to_string()).unwrap_err();
    assert_eq!(e.code, "invalid_password_complexity");
    assert_eq!(
        e.message.as_deref(),
        Some("Password must include at least 2 of the following: uppercase letters, lowercase letters, digits, underscores")
    );
    let e = Password::validate_raw_password(&"________".to_string()).unwrap_err();
    assert_eq!(e.code, "invalid_password_complexity");
}

#[test]
fn two_kinds_of_character_are_enough() {
    assert!(Password::validate_raw_password(&"abcdefg1".to_string()).is_ok());
    assert!(Password::validate_raw_password(&"ABCDEFG_".to_string()).is_ok());
    assert!(Password::validate_raw_password(&"abcdEFGH".to_string()).is_ok());
    assert!(Password::validate_raw_password(&"1234567_".to_string()).is_ok());
}

#[test]
fn password_length_counts_bytes() {
    // three characters, nine bytes: long enough, but one kind only
    let e = Password::validate_raw_password(&"日本語".to_string()).unwrap_err();
    assert_eq!(e.code, "invalid_password_complexity");
    // seven characters, eight bytes, upper and lower case
    assert!(Password::validate_raw_password(&"Äbcdefg".to_string()).is_ok());
    // seven ASCII characters are too short
    let e = Password::validate_raw_password(&"Abcdefg".to_string()).unwrap_err();
    assert_eq!(e.code, "invalid_password_length");
}

#[test]
fn non_ascii_letters_count_as_upper_and_lower_case() {
    assert!(Password::validate_raw_password(&"ÄÖÜäöü".to_string()).is_ok());
    let e = Password::validate_raw_password(&"äöüßäöü".to_string()).unwrap_err();
    assert_eq!(e.code, "invalid_password_complexity");
}

#[test]
fn new_password_is_an_argon2id_phc_string() {
    let p = Password::new("Passw0rd_".to_string());
    assert!(p.0.starts_with("$argon2id$v=19$"), "{}", p.0);
    assert_ne!(p.0, "Passw0rd_");
}
