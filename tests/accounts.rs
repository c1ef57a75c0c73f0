use datesapp::{authenticate, authentication_verdict, prepare_user, AuthError, CreateUserData};

const PYTHON_HASH: &str = "$2b$04$EGdrhbKUv8Oc9vGiXX0HQOxSg445d458Muh7DAHskb6QbtCvdxcie";

#[test]
fn correct_password_authenticates() {
    let stored = Some(PYTHON_HASH.to_string());
    assert_eq!(authenticate(&stored, "correctbatteryhorsestapler"), Ok(()));
}

#[test]
fn wrong_password_and_unknown_user_are_identical() {
    let stored = Some(PYTHON_HASH.to_string());
    let wrong = authenticate(&stored, "wrong");
    let missing = authenticate(&None, "correctbatteryhorsestapler");
    assert_eq!(wrong, Err(AuthError::Unauthorized));
    assert_eq!(wrong, missing);
}

#[test]
fn malformed_hash_is_unauthorized() {
    let stored = Some("not a bcrypt hash".to_string());
    assert_eq!(authenticate(&stored, "anything"), Err(AuthError::Unauthorized));
}

#[test]
fn verdicts() {
    assert_eq!(authentication_verdict(Some(true)), Ok(()));
    assert_eq!(authentication_verdict(Some(false)), Err(AuthError::Unauthorized));
    assert_eq!(authentication_verdict(None), Err(AuthError::Unauthorized));
}

#[test]
fn prepared_user_stores_a_verifiable_hash() {
    let data = CreateUserData { username: "alice".to_string(), password: "s3cret".to_string() };
    let stored = prepare_user(data).unwrap();
    assert_eq!(stored.username, "alice");
    assert_ne!(stored.password, "s3cret");
    assert_eq!(stored.password.len(), 60);
    let hash = Some(stored.password);
    assert_eq!(authenticate(&hash, "s3cret"), Ok(()));
    assert_eq!(authenticate(&hash, "other"), Err(AuthError::Unauthorized));
}
