use jotti::panel::auth::{
    backup_codes_after_check, check_totp_code, confirm_totp, hash_backup_codes, new_backup_codes, setup_totp, totp_check_answer,
    totp_setup_key, verify_backup_code, TotpCheck, TotpConfirmError,
};

fn current_code(secret_b32: &str) -> String {
    let bytes = base32::decode(base32::Alphabet::Rfc4648 { padding: false }, secret_b32).unwrap();
    let totp = totp_rs::TOTP::new(totp_rs::Algorithm::SHA1, 6, 1, 30, bytes).unwrap();
    totp.generate_current().unwrap()
}

#[test]
fn totp_answers_for_check_results() {
    assert_eq!(totp_check_answer(Ok(true)), TotpCheck::Accepted);
    assert_eq!(totp_check_answer(Ok(false)), TotpCheck::Rejected);
    assert_eq!(totp_check_answer(Err("clock".to_string())), TotpCheck::Clock("clock".to_string()));
}

#[test]
fn totp_secret_must_be_base32() {
    assert_eq!(check_totp_code("not base32!", "123456"), TotpCheck::BadSecret);
    assert_eq!(check_totp_code("abc1", "123456"), TotpCheck::BadSecret);
}

#[test]
fn totp_secret_must_hold_128_bits() {
    // "JBSWY3DPEHPK3PXP" decodes to 10 bytes.
    assert!(matches!(check_totp_code("JBSWY3DPEHPK3PXP", "123456"), TotpCheck::Setup(_)));
}

#[test]
fn totp_current_code_is_accepted() {
    let secret = "GEZDGNBVGY3TQOJQGEZDGNBVGY3TQOJQ"; // 20 bytes
    let code = current_code(secret);
    assert_eq!(check_totp_code(secret, &code), TotpCheck::Accepted);
    assert_eq!(check_totp_code(secret, "abcdef"), TotpCheck::Rejected);
}

#[test]
fn totp_setup_makes_usable_secret() {
    let s = setup_totp("a@b.c");
    assert_eq!(s.secret.len(), 32);
    assert!(s.secret.chars().all(|c| c.is_ascii_uppercase() || ('2'..='7').contains(&c)));
    let bytes = base32::decode(base32::Alphabet::Rfc4648 { padding: false }, &s.secret).unwrap();
    assert_eq!(bytes.len(), 20);
    assert_eq!(
        s.provisioning_uri,
        format!("otpauth://totp/JottiCP:a%40b.c?secret={}&issuer=JottiCP", s.secret)
    );
    let code = current_code(&s.secret);
    assert_eq!(check_totp_code(&s.secret, &code), TotpCheck::Accepted);
    assert_eq!(totp_setup_key("u1"), "jottiecp:totp_setup:u1");
}

#[test]
fn backup_codes_are_alphanumeric() {
    let codes = new_backup_codes();
    assert_eq!(codes.len(), 8);
    for c in &codes {
        assert_eq!(c.len(), 12);
        assert!(c.chars().all(|ch| ch.is_ascii_alphanumeric()));
    }
}

#[test]
fn backup_code_hashes_verify_their_codes() {
    let codes = vec!["abc".to_string(), "def".to_string()];
    let hashes = hash_backup_codes(&codes).unwrap();
    assert_eq!(hashes.len(), 2);
    assert!(verify_backup_code("abc", &hashes[0]));
    assert!(verify_backup_code("def", &hashes[1]));
    assert!(!verify_backup_code("abc", &hashes[1]));
}

#[test]
fn confirm_totp_outcomes() {
    assert!(matches!(
        confirm_totp("not base32!", "123456"),
        Err(TotpConfirmError::Code(TotpCheck::BadSecret))
    ));
    let secret = "GEZDGNBVGY3TQOJQGEZDGNBVGY3TQOJQ";
    assert!(matches!(confirm_totp(secret, "abcdef"), Err(TotpConfirmError::Code(TotpCheck::Rejected))));
    let code = current_code(secret);
    let set = confirm_totp(secret, &code).unwrap();
    assert_eq!(set.codes.len(), 8);
    assert_eq!(set.hashes.len(), 8);
    assert!(verify_backup_code(&set.codes[3], &set.hashes[3]));
}

#[test]
fn backup_codes_follow_the_check() {
    assert!(matches!(
        backup_codes_after_check(TotpCheck::Rejected),
        Err(TotpConfirmError::Code(TotpCheck::Rejected))
    ));
    assert!(matches!(
        backup_codes_after_check(TotpCheck::Clock("x".into())),
        Err(TotpConfirmError::Code(TotpCheck::Clock(_)))
    ));
    let set = backup_codes_after_check(TotpCheck::Accepted).unwrap();
    assert_eq!(set.codes.len(), 8);
    assert!(verify_backup_code(&set.codes[7], &set.hashes[7]));
}
