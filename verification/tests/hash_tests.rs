use url_shortener::hash::{hash_password, verify_password};

#[test]
fn hash_and_verify_correct_password() {
    let password = "it_should_work";
    let secret = "secret";

    let hashed_password = hash_password(secret, password).unwrap();

    assert!(verify_password(secret, password, hashed_password.as_str()).unwrap())
}

#[test]
fn hash_and_verify_wrong_password() {
    let password = "it_should_not_work";
    let secret = "secret";

    let hashed_password = hash_password(password, secret).unwrap();

    assert!(!verify_password(secret, "wrong_password", hashed_password.as_str()).unwrap())
}

#[test]
fn verify_rejects_corrupt_hash() {
    let r = verify_password("secret", "password", "not a phc string");
    assert!(r.is_err());
}

#[test]
fn hash_is_salted_not_the_password() {
    let h = hash_password("secret", "password1").unwrap();
    // A PHC string, not the password handed back.
    assert_ne!(h, "password1");
    assert!(h.starts_with("$argon2"));
    // Fresh salt per call: two hashes of the same password differ, yet both verify.
    let h2 = hash_password("secret", "password1").unwrap();
    assert_ne!(h, h2);
    assert!(verify_password("secret", "password1", h2.as_str()).unwrap());
}

#[test]
fn verify_fails_under_mismatched_secret() {
    let h = hash_password("secret_a", "password1").unwrap();
    let r = verify_password("secret_b", "password1", h.as_str());
    // A wrong secret makes verification fail, never error.
    assert_eq!(r.unwrap(), false);
}
