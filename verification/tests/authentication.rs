use argon2::password_hash::{PasswordHasher, SaltString};
use argon2::{Algorithm, Argon2, Params, PasswordHash, Version};
use weather_forecast_wechat_bot::authentication::{
    get_user_password, join_verification, placeholder_secret, validate_credentials,
    verify_password_hash, AuthError, Credentials, UserRow,
};
use weather_forecast_wechat_bot::errors::{DbError, StoreFailure};
use weather_forecast_wechat_bot::secret::Secret;

fn hash_of(password: &str, memory_kib: u32, passes: u32) -> String {
    let salt = SaltString::encode_b64(b"another fixed salt").unwrap();
    Argon2::new(
        Algorithm::Argon2id,
        Version::V0x13,
        Params::new(memory_kib, passes, 1, None).unwrap(),
    )
    .hash_password(password.as_bytes(), &salt)
    .unwrap()
    .to_string()
}

fn secret(text: &str) -> Secret {
    Secret::new(text.to_string())
}

fn credentials(username: &str, password: &str) -> Credentials {
    Credentials { username: username.to_string(), password: secret(password) }
}

fn invalid_credentials() -> AuthError {
    AuthError::InvalidCredentials("Incorrect username or password.".to_string())
}

#[test]
fn a_secret_gives_back_its_text() {
    let sealed = Secret::new("knysfh".to_string());
    assert_eq!(sealed.expose_secret(), "knysfh");
    assert_eq!(Secret::new(String::new()).expose_secret(), "");
}

#[test]
fn the_right_password_is_accepted() {
    let hash = hash_of("knysfh", 15000, 2);
    assert_eq!(verify_password_hash(secret(&hash), secret("knysfh")), Ok(()));
}

#[test]
fn a_wrong_password_is_invalid_credentials() {
    let hash = hash_of("knysfh", 64, 1);
    assert_eq!(verify_password_hash(secret(&hash), secret("knysfH")), Err(invalid_credentials()));
    assert_eq!(verify_password_hash(secret(&hash), secret("")), Err(invalid_credentials()));
    // The candidate is not mistaken for the hash, nor the hash for the candidate.
    assert_eq!(verify_password_hash(secret(&hash), secret(&hash)), Err(invalid_credentials()));
}

#[test]
fn a_password_is_compared_by_its_bytes() {
    let hash = hash_of("pässwörd ✓", 64, 1);
    assert_eq!(verify_password_hash(secret(&hash), secret("pässwörd ✓")), Ok(()));
    assert_eq!(
        verify_password_hash(secret(&hash), secret("passwoerd ✓")),
        Err(invalid_credentials())
    );
}

#[test]
fn a_hash_that_does_not_parse_is_an_unexpected_error() {
    assert_eq!(
        verify_password_hash(secret("not a hash"), secret("knysfh")),
        Err(AuthError::UnexpectedError(
            "Error during password hashing, details: password hash string missing field"
                .to_string()
        ))
    );
    assert_eq!(
        verify_password_hash(secret(""), secret("knysfh")),
        Err(AuthError::UnexpectedError(
            "Error during password hashing, details: password hash string missing field"
                .to_string()
        ))
    );
    let trailing = format!("{}$more", hash_of("knysfh", 64, 1));
    assert_eq!(
        verify_password_hash(secret(&trailing), secret("knysfh")),
        Err(AuthError::UnexpectedError(
            "Error during password hashing, details: password hash string contains trailing characters"
                .to_string()
        ))
    );
}

#[test]
fn the_placeholder_is_a_hash_like_the_stored_ones() {
    let placeholder = placeholder_secret();
    let text = placeholder.expose_secret();
    assert_eq!(
        text,
        "$argon2id$v=19$m=15000,t=2,p=1$gZiV/M1gPc22ElAH/Jh1Hw$CWOrkoo7oJBQ/iyh7uJ0LO2aLEfrHwTWllSAxT0zRno"
    );
    let parsed = PasswordHash::new(text).unwrap();
    let stored = hash_of("knysfh", 15000, 2);
    let stored = PasswordHash::new(&stored).unwrap();
    assert_eq!(parsed.algorithm, stored.algorithm);
    assert_eq!(parsed.version, stored.version);
    assert_eq!(parsed.params, stored.params);
    assert_eq!(parsed.hash.unwrap().len(), stored.hash.unwrap().len());
}

#[test]
fn a_known_user_with_the_right_password_gets_the_user_id() {
    let row = UserRow { user_id: 42, password_hash: hash_of("knysfh", 64, 1) };
    assert_eq!(validate_credentials(credentials("bob", "knysfh"), Ok(Some(row))), Ok(42));
}

#[test]
fn a_known_user_with_a_wrong_password_is_invalid_credentials() {
    let row = UserRow { user_id: 42, password_hash: hash_of("knysfh", 64, 1) };
    assert_eq!(
        validate_credentials(credentials("bob", "guess"), Ok(Some(row))),
        Err(invalid_credentials())
    );
}

#[test]
fn an_unknown_user_is_invalid_credentials() {
    assert_eq!(
        validate_credentials(credentials("random_username", "random_password"), Ok(None)),
        Err(invalid_credentials())
    );
}

#[test]
fn a_stored_hash_that_does_not_parse_is_an_unexpected_error() {
    let row = UserRow { user_id: 42, password_hash: "$argon2id$".to_string() };
    let outcome = validate_credentials(credentials("bob", "knysfh"), Ok(Some(row)));
    match outcome {
        Err(AuthError::UnexpectedError(message)) => {
            assert!(message.starts_with("Error during password hashing, details: "));
            assert!(message.len() > "Error during password hashing, details: ".len());
        }
        other => panic!("{:?}", other),
    }
}

#[test]
fn a_store_failure_ends_the_check_with_its_class() {
    let connection = StoreFailure::Database { message: "lost connection to server".to_string() };
    assert_eq!(
        validate_credentials(credentials("bob", "knysfh"), Err(connection)),
        Err(AuthError::DatabaseError(DbError::ConnectionError {
            message: "lost connection to server".to_string()
        }))
    );
    let query = StoreFailure::Database { message: "relation \"users\" does not exist".to_string() };
    assert_eq!(
        validate_credentials(credentials("bob", "knysfh"), Err(query)),
        Err(AuthError::DatabaseError(DbError::QueryError {
            message: "relation \"users\" does not exist".to_string()
        }))
    );
    let timeout = StoreFailure::PoolTimedOut { description: "pool timed out".to_string() };
    assert_eq!(
        validate_credentials(credentials("bob", "knysfh"), Err(timeout)),
        Err(AuthError::DatabaseError(DbError::TimeOut("pool timed out".to_string())))
    );
    let other = StoreFailure::Other { description: "connection refused".to_string() };
    assert_eq!(
        validate_credentials(credentials("bob", "knysfh"), Err(other)),
        Err(AuthError::DatabaseError(DbError::Other("connection refused".to_string())))
    );
}

#[test]
fn a_database_error_is_classed_by_the_word_connection() {
    let class = |message: &str| DbError::from(StoreFailure::Database { message: message.to_string() });
    assert_eq!(
        class("connection"),
        DbError::ConnectionError { message: "connection".to_string() }
    );
    assert_eq!(
        class("too many connections"),
        DbError::ConnectionError { message: "too many connections".to_string() }
    );
    assert_eq!(class("Connection"), DbError::QueryError { message: "Connection".to_string() });
    assert_eq!(class("connectio"), DbError::QueryError { message: "connectio".to_string() });
    assert_eq!(class(""), DbError::QueryError { message: String::new() });
    assert_eq!(
        class("noitcennoc"),
        DbError::QueryError { message: "noitcennoc".to_string() }
    );
}

#[test]
fn a_store_failure_is_described_by_its_class() {
    assert_eq!(
        DbError::ConnectionError { message: "lost connection".to_string() }.to_string(),
        "Database connection error: lost connection "
    );
    assert_eq!(
        DbError::QueryError { message: "syntax error".to_string() }.to_string(),
        "Database query error: syntax error "
    );
    assert_eq!(DbError::TimeOut("pool timed out".to_string()).to_string(), "Pool timeout error: pool timed out");
    assert_eq!(DbError::Other("io".to_string()).to_string(), "Other database error: io");
}

#[test]
fn a_failed_check_is_described_by_its_kind() {
    assert_eq!(invalid_credentials().to_string(), "Invalid credentials.");
    assert_eq!(AuthError::UnexpectedError("anything".to_string()).to_string(), "unexpected error");
    assert_eq!(
        AuthError::DatabaseError(DbError::Other("io".to_string())).to_string(),
        "Other database error: io"
    );
}

#[test]
fn a_lookup_is_handed_on_with_its_hash_sealed() {
    let row = UserRow { user_id: 7, password_hash: "$argon2id$stored".to_string() };
    match get_user_password(Ok(Some(row))) {
        Ok(Some((user_id, hash))) => {
            assert_eq!(user_id, 7);
            assert_eq!(hash.expose_secret(), "$argon2id$stored");
        }
        _ => panic!("the row was lost"),
    }
    assert!(matches!(get_user_password(Ok(None)), Ok(None)));
    let failure = StoreFailure::PoolTimedOut { description: "late".to_string() };
    match get_user_password(Err(failure)) {
        Err(error) => {
            assert_eq!(error, AuthError::DatabaseError(DbError::TimeOut("late".to_string())))
        }
        Ok(_) => panic!("the failure was lost"),
    }
}

#[test]
fn a_worker_that_did_not_finish_is_an_unexpected_error() {
    assert_eq!(join_verification(Ok(Ok(9))), Ok(9));
    assert_eq!(join_verification(Ok(Err(invalid_credentials()))), Err(invalid_credentials()));
    assert_eq!(
        join_verification(Err("task 12 panicked".to_string())),
        Err(AuthError::UnexpectedError(
            "An exception occurred in the thread while verifying the hashed password, details: task 12 panicked"
                .to_string()
        ))
    );
}
