use zenote::password::{hash_password, hash_password_with_salt, verify_password, PasswordError};

#[test]
fn two_hashes_of_one_password_differ_and_both_verify() {
    let first = hash_password("secret123").unwrap();
    let second = hash_password("secret123").unwrap();
    assert_ne!(first, second);
    assert!(verify_password("secret123", &first));
    assert!(verify_password("secret123", &second));
}

#[test]
fn a_different_password_does_not_verify() {
    let hash = hash_password("secret123").unwrap();
    assert!(!verify_password("secret124", &hash));
    assert!(!verify_password("", &hash));
    assert!(!verify_password("Secret123", &hash));
    assert!(!verify_password("secret123 ", &hash));
}

#[test]
fn a_hash_is_a_phc_string_and_not_the_password() {
    let hash = hash_password("secret123").unwrap();
    assert!(hash.starts_with("$argon2id$v=19$m=19456,t=2,p=1$"));
    assert_ne!(hash, "secret123");
    assert!(!hash.contains("secret123"));
}

#[test]
fn hashing_under_a_given_salt_is_repeatable() {
    let first = hash_password_with_salt("secret123", "c29tZXNhbHRzb21lc2FsdA").unwrap();
    let second = hash_password_with_salt("secret123", "c29tZXNhbHRzb21lc2FsdA").unwrap();
    assert_eq!(first, second);
    assert!(first.starts_with("$argon2id$v=19$m=19456,t=2,p=1$c29tZXNhbHRzb21lc2FsdA$"));
    assert!(verify_password("secret123", &first));

    let other_salt = hash_password_with_salt("secret123", "YW5vdGhlcnNhbHRhbm90aGVy").unwrap();
    assert_ne!(first, other_salt);
    assert!(verify_password("secret123", &other_salt));

    let other_password = hash_password_with_salt("secret124", "c29tZXNhbHRzb21lc2FsdA").unwrap();
    assert_ne!(first, other_password);
    assert!(!verify_password("secret123", &other_password));
}

#[test]
fn a_bad_salt_is_refused() {
    assert_eq!(hash_password_with_salt("pw", "").unwrap_err(), PasswordError::HashingFailed);
    assert_eq!(hash_password_with_salt("pw", "abc").unwrap_err(), PasswordError::HashingFailed);
    assert_eq!(
        hash_password_with_salt("pw", "not a salt!!").unwrap_err(),
        PasswordError::HashingFailed
    );
}

#[test]
fn a_stored_string_that_is_no_hash_accepts_nothing() {
    assert!(!verify_password("secret123", "secret123"));
    assert!(!verify_password("", ""));
    assert!(!verify_password("x", "$argon2id$broken"));
}

#[test]
fn empty_and_unicode_passwords_hash_and_verify() {
    let empty = hash_password("").unwrap();
    assert!(verify_password("", &empty));
    assert!(!verify_password(" ", &empty));
    let unicode = hash_password("pässwörd✓").unwrap();
    assert!(verify_password("pässwörd✓", &unicode));
    assert!(!verify_password("password", &unicode));
}

#[test]
fn a_hash_is_what_hashing_under_its_own_salt_gives() {
    let hash = hash_password("secret123").unwrap();
    let parts: Vec<&str> = hash.split('$').collect();
    assert_eq!(parts.len(), 6);
    let salt = parts[4];
    assert_eq!(salt.len(), 22);
    assert_eq!(hash_password_with_salt("secret123", salt).unwrap(), hash);
    assert_ne!(hash_password_with_salt("secret124", salt).unwrap(), hash);
}

#[test]
fn a_sign_up_record_holds_the_hash_under_its_own_salt() {
    let record = zenote::auth::sign_up_record(
        "j@x.com".to_string(),
        "secret123",
        "Jo".to_string(),
        "Gray".to_string(),
        "".to_string(),
    )
    .unwrap();
    let parts: Vec<&str> = record.password.split('$').collect();
    assert_eq!(parts.len(), 6);
    assert_eq!(hash_password_with_salt("secret123", parts[4]).unwrap(), record.password);
    assert_eq!(record.email, "j@x.com");
    assert_eq!(record.first_name, "Jo");
    assert_eq!(record.last_name, "Gray");
    assert_eq!(record.avatar_url, "");
}

#[test]
fn a_drawn_salt_is_sixteen_bytes_in_b64() {
    for _ in 0..20 {
        let hash = hash_password("pw").unwrap();
        let parts: Vec<&str> = hash.split('$').collect();
        let salt = parts[4];
        assert_eq!(salt.len(), 22);
        assert!(salt.chars().all(|c| c.is_ascii_alphanumeric() || c == '+' || c == '/'));
        assert!(matches!(salt.chars().last(), Some('A') | Some('Q') | Some('g') | Some('w')));
    }
}

#[test]
fn every_salt_of_the_drawn_form_is_taken() {
    for salt in [
        "AAAAAAAAAAAAAAAAAAAAAA",
        "/////////////////////w",
        "+++++++++++++++++++++Q",
        "abcdefghijklmnopqrstug",
        "0123456789ABCDEFGHIJKA",
    ] {
        let hash = hash_password_with_salt("secret123", salt).unwrap();
        assert!(hash.starts_with("$argon2id$"));
        assert!(verify_password("secret123", &hash));
    }
    assert!(hash_password_with_salt("", "AAAAAAAAAAAAAAAAAAAAAA").is_ok());
}
