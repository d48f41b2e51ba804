use blog::captcha::handlers::{get_captcha, verify_captcha};
use blog::captcha::{
    captcha_expire_seconds, generate_captcha, hash_answer, issue_captcha, to_hex_lower, CaptchaResponse,
    CaptchaVerify,
};
use blog::reply::Reply;

fn is_uuid_v4(s: &str) -> bool {
    let b: Vec<char> = s.chars().collect();
    b.len() == 36
        && b.iter().enumerate().all(|(i, c)| {
            if [8, 13, 18, 23].contains(&i) { *c == '-' } else { c.is_ascii_hexdigit() && !c.is_ascii_uppercase() }
        })
        && b[14] == '4'
        && "89ab".contains(b[19])
}

#[test]
fn answer_hash_is_sha256_in_lowercase_hex() {
    assert_eq!(
        hash_answer(&"abc".to_string()),
        "ba7816bf8f01cfea414140de5dae2223b00361a396177a9cb410ff61f20015ad"
    );
    assert_eq!(
        hash_answer(&"".to_string()),
        "e3b0c44298fc1c149afbf4c8996fb92427ae41e4649b934ca495991b7852b855"
    );
}

#[test]
fn hex_digits() {
    assert_eq!(to_hex_lower(&vec![0x00, 0x0f, 0xa0, 0xff]), "000fa0ff");
    assert_eq!(to_hex_lower(&vec![]), "");
}

#[test]
fn expiry_setting_defaults_to_300_seconds() {
    assert_eq!(captcha_expire_seconds(None), 300);
    assert_eq!(captcha_expire_seconds(Some("60")), 60);
    assert_eq!(captcha_expire_seconds(Some("-5")), -5);
    assert_eq!(captcha_expire_seconds(Some("ten")), 300);
    assert_eq!(captcha_expire_seconds(Some("")), 300);
}

#[test]
fn new_captcha() {
    let now: i64 = 1_700_000_000_000_000;
    let c = generate_captcha(None, now);
    assert!(is_uuid_v4(&c.response.captcha_id), "{}", c.response.captcha_id);
    assert!(c.response.image_base64.starts_with("data:image/jpeg;base64,"));
    assert!(c.response.image_base64.len() > "data:image/jpeg;base64,".len());
    assert_eq!(c.answer_hash.len(), 64);
    assert_eq!(c.expires_at, now + 300_000_000);
    let d = generate_captcha(Some("45"), now);
    assert_eq!(d.expires_at, now + 45_000_000);
    assert_ne!(c.response.captcha_id, d.response.captcha_id);
}

#[test]
fn issued_captcha_keeps_the_hash_of_its_text() {
    let now: i64 = 1_700_000_000_000_000;
    let c = issue_captcha("abc".to_string(), "data:image/jpeg;base64,AAAA".to_string(), "the-id".to_string(), Some("60"), now);
    assert_eq!(c.response.captcha_id, "the-id");
    assert_eq!(c.response.image_base64, "data:image/jpeg;base64,AAAA");
    assert_eq!(c.answer_hash, "ba7816bf8f01cfea414140de5dae2223b00361a396177a9cb410ff61f20015ad");
    assert_eq!(c.expires_at, now + 60_000_000);
    let d = issue_captcha("abc".to_string(), String::new(), String::new(), None, now);
    assert_eq!(d.expires_at, now + 300_000_000);
    let solver = CaptchaVerify { captcha_id: "the-id".to_string(), answer: "abc".to_string() };
    assert!(solver.is_solved_by(Some((c.answer_hash.clone(), c.expires_at)), now));
}

#[test]
fn captcha_replies() {
    let ok = CaptchaResponse { captcha_id: "id".to_string(), image_base64: "img".to_string() };
    match get_captcha(Ok(ok)) {
        Reply::Json(200, c) => assert_eq!(c.captcha_id, "id"),
        _ => panic!("expected 200"),
    }
    match get_captcha(Err("db".to_string())) {
        Reply::Text(500, m) => assert_eq!(m, "Failed to generate captcha"),
        _ => panic!("expected 500"),
    }
    assert!(matches!(verify_captcha(Ok(true)), Reply::Text(200, m) if m == "Captcha verified"));
    assert!(matches!(verify_captcha(Ok(false)), Reply::Text(400, m) if m == "Invalid captcha"));
    assert!(matches!(verify_captcha(Err("db".to_string())), Reply::Text(500, m) if m == "Failed to verify captcha"));
}

#[test]
fn answers_are_checked_against_the_stored_hash_and_expiry() {
    let v = CaptchaVerify { captcha_id: "id".to_string(), answer: "abc".to_string() };
    let h = hash_answer(&"abc".to_string());
    assert!(v.is_solved_by(Some((h.clone(), 100)), 100));
    assert!(!v.is_solved_by(Some((h.clone(), 100)), 101));
    assert!(!v.is_solved_by(Some((hash_answer(&"abd".to_string()), 100)), 0));
    assert!(!v.is_solved_by(None, 0));
}
