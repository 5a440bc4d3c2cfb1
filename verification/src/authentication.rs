//! The credential check: a submitted password against the hash that the
//! users table holds, or against a placeholder where it holds none.
use crate::errors::{classify, db_error_text, DbError, DbErrorView, StoreFailure};
use crate::secret::Secret;
use argon2::{Argon2, PasswordHash, PasswordVerifier};
use vstd::prelude::*;
use vstd::string::StringExecFns;
use vstd::utf8::encode_utf8;

verus! {

/// Why a credential check did not end in a user id.
#[derive(Debug, PartialEq, Eq)]
pub enum AuthError {
    /// The password does not belong to the user, or there is no such user.
    InvalidCredentials(String),
    /// The credential store could not be asked.
    DatabaseError(DbError),
    /// Something that no input of a user should be able to cause.
    UnexpectedError(String),
}

/// An `AuthError` with its texts as sequences of characters.
pub ghost enum AuthErrorView {
    InvalidCredentials(Seq<char>),
    DatabaseError(DbErrorView),
    UnexpectedError(Seq<char>),
}

impl View for AuthError {
    type V = AuthErrorView;

    open spec fn view(&self) -> AuthErrorView {
        match *self {
            AuthError::InvalidCredentials(message) => AuthErrorView::InvalidCredentials(message@),
            AuthError::DatabaseError(error) => AuthErrorView::DatabaseError(error@),
            AuthError::UnexpectedError(message) => AuthErrorView::UnexpectedError(message@),
        }
    }
}

/// How a failed check is described in the server's records.
pub open spec fn auth_error_text(error: AuthErrorView) -> Seq<char> {
    match error {
        AuthErrorView::InvalidCredentials(_) => "Invalid credentials."@,
        AuthErrorView::DatabaseError(error) => db_error_text(error),
        AuthErrorView::UnexpectedError(_) => "unexpected error"@,
    }
}

impl AuthError {
    /// How the error is described in the server's records.
    pub fn to_string(&self) -> (text: String)
        ensures
            text@ == auth_error_text(self@),
    {
        match self {
            AuthError::InvalidCredentials(_) => String::from_str("Invalid credentials."),
            AuthError::DatabaseError(error) => error.to_string(),
            AuthError::UnexpectedError(_) => String::from_str("unexpected error"),
        }
    }
}

/// A result of this module with its error taken by its view.
pub open spec fn outcome_view<T>(outcome: Result<T, AuthError>) -> Result<T, AuthErrorView> {
    match outcome {
        Ok(value) => Ok(value),
        Err(error) => Err(error@),
    }
}

/// A user name and the password submitted with it.
pub struct Credentials {
    pub username: String,
    pub password: Secret,
}

/// A row of the users table as a lookup by user name returns it.
#[derive(Debug, PartialEq, Eq)]
pub struct UserRow {
    pub user_id: u128,
    pub password_hash: String,
}

/// What `PasswordHash::new` makes of a text: `None` where the text parses as
/// a PHC string, else the description of the parser's error.
pub uninterp spec fn phc_parse_error(text: Seq<char>) -> Option<Seq<char>>;

/// Whether `Argon2::default()` finds that the password, given as bytes,
/// belongs to the PHC string `hash`; false where `hash` does not parse.
pub uninterp spec fn argon2_accepts(password: Seq<u8>, hash: Seq<char>) -> bool;

/// `PasswordHash::new`, called for its verdict on the text: nothing where
/// the text parses as a PHC string, else what the parser's error displays.
/// Both depend on the text alone.
#[verifier::external_body]
fn phc_parse_failure(hash: &str) -> (failure: Option<String>)
    ensures
        failure is Some == phc_parse_error(hash@) is Some,
        failure matches Some(detail) ==> phc_parse_error(hash@) == Some(detail@),
{
    match PasswordHash::new(hash) {
        Ok(_) => None,
        Err(error) => Some(error.to_string()),
    }
}

/// `PasswordVerifier::verify_password` of `Argon2::default()`, on the hash
/// that `PasswordHash::new` parses from `hash`: whether it returned `Ok`,
/// which depends on the password and the hash alone. A text that does not
/// parse is not verified against, and counts as not accepted.
#[verifier::external_body]
fn argon2_verify(password: &[u8], hash: &str) -> (accepted: bool)
    ensures
        accepted == argon2_accepts(password@, hash@),
{
    match PasswordHash::new(hash) {
        Ok(parsed) => Argon2::default().verify_password(password, &parsed).is_ok(),
        Err(_) => false,
    }
}

/// The one text that a failed check carries, whatever made it fail. It
/// stays with the server; what the user is told is the login's to say.
pub open spec fn invalid_credentials_message() -> Seq<char> {
    "Incorrect username or password."@
}

/// The start of the message for a stored hash that does not parse.
pub open spec fn hash_failure_prefix() -> Seq<char> {
    "Error during password hashing, details: "@
}

/// The start of the message for a verification whose worker did not finish.
pub open spec fn worker_failure_prefix() -> Seq<char> {
    "An exception occurred in the thread while verifying the hashed password, details: "@
}

/// The message for a password that was accepted for no user.
pub open spec fn missing_user_message() -> Seq<char> {
    "An error occurred while getting the user_id"@
}

/// The hash that stands in for the stored one where the user does not exist:
/// a well-formed Argon2id string with the parameters of the real ones.
pub open spec fn placeholder_hash() -> Seq<char> {
    "$argon2id$v=19$m=15000,t=2,p=1$gZiV/M1gPc22ElAH/Jh1Hw$CWOrkoo7oJBQ/iyh7uJ0LO2aLEfrHwTWllSAxT0zRno"@
}

/// What the parser and the verifier make of a check: an unexpected error
/// where the hash did not parse, success where the verifier accepted the
/// candidate, and the one message for invalid credentials otherwise.
pub open spec fn verdict(parse_failure: Option<Seq<char>>, accepted: bool) -> Result<
    (),
    AuthErrorView,
> {
    match parse_failure {
        Some(detail) => Err(AuthErrorView::UnexpectedError(hash_failure_prefix() + detail)),
        None => if accepted {
            Ok(())
        } else {
            Err(AuthErrorView::InvalidCredentials(invalid_credentials_message()))
        },
    }
}

/// What verifying `candidate` against `expected_hash` gives: the verdict on
/// what `PasswordHash::new` makes of the hash and on whether Argon2 accepts
/// the candidate's bytes for it.
pub open spec fn password_check(expected_hash: Seq<char>, candidate: Seq<char>) -> Result<
    (),
    AuthErrorView,
> {
    verdict(
        phc_parse_error(expected_hash),
        argon2_accepts(encode_utf8(candidate), expected_hash),
    )
}

/// The outcome of a check whose verification ended in `verified`: an error
/// of the verification stands, and its success gives the user's id, or an
/// unexpected error where there is no user.
pub open spec fn settled(user_id: Option<u128>, verified: Result<(), AuthErrorView>) -> Result<
    u128,
    AuthErrorView,
> {
    match verified {
        Err(error) => Err(error),
        Ok(()) => match user_id {
            Some(user_id) => Ok(user_id),
            None => Err(AuthErrorView::UnexpectedError(missing_user_message())),
        },
    }
}

/// The user id of a lookup, if it found a user.
pub open spec fn found_user(stored: Option<(u128, Seq<char>)>) -> Option<u128> {
    match stored {
        Some((user_id, _)) => Some(user_id),
        None => None,
    }
}

/// The hash that a candidate is verified against: the stored one where the
/// user exists, the placeholder where it does not.
pub open spec fn expected_hash(stored: Option<(u128, Seq<char>)>) -> Seq<char> {
    match stored {
        Some((_, hash)) => hash,
        None => placeholder_hash(),
    }
}

/// What a lookup yields to the check: the row with its hash sealed, nothing
/// for an unknown user, and the class of the failure where the store failed.
pub open spec fn lookup_outcome(fetched: Result<Option<UserRow>, StoreFailure>) -> Result<
    Option<(u128, Seq<char>)>,
    AuthErrorView,
> {
    match fetched {
        Ok(Some(row)) => Ok(Some((row.user_id, row.password_hash@))),
        Ok(None) => Ok(None),
        Err(failure) => Err(AuthErrorView::DatabaseError(classify(failure)@)),
    }
}

/// The outcome of a credential check. A store failure ends it before any
/// hashing. Otherwise the candidate is verified, against the stored hash or,
/// for an unknown user, against the placeholder, and the check is settled by
/// what the verification says.
pub open spec fn validation(
    fetched: Result<Option<UserRow>, StoreFailure>,
    candidate: Seq<char>,
) -> Result<u128, AuthErrorView> {
    match lookup_outcome(fetched) {
        Err(error) => Err(error),
        Ok(stored) => settled(
            found_user(stored),
            password_check(expected_hash(stored), candidate),
        ),
    }
}

/// The placeholder hash as a secret.
pub fn placeholder_secret() -> (hash: Secret)
    ensures
        hash@ == placeholder_hash(),
{
    Secret::new(
        String::from_str(
            "$argon2id$v=19$m=15000,t=2,p=1$gZiV/M1gPc22ElAH/Jh1Hw$CWOrkoo7oJBQ/iyh7uJ0LO2aLEfrHwTWllSAxT0zRno",
        ),
    )
}

/// What a lookup yields to the check, with its texts as sequences of
/// characters.
pub open spec fn stored_view(stored: Result<Option<(u128, Secret)>, AuthError>) -> Result<
    Option<(u128, Seq<char>)>,
    AuthErrorView,
> {
    match stored {
        Ok(Some((user_id, hash))) => Ok(Some((user_id, hash@))),
        Ok(None) => Ok(None),
        Err(error) => Err(error@),
    }
}

/// Turns what the users table returned for a user name into what the check
/// works on.
pub fn get_user_password(fetched: Result<Option<UserRow>, StoreFailure>) -> (stored: Result<
    Option<(u128, Secret)>,
    AuthError,
>)
    ensures
        stored_view(stored) == lookup_outcome(fetched),
{
    match fetched {
        Ok(Some(row)) => Ok(Some((row.user_id, Secret::new(row.password_hash)))),
        Ok(None) => Ok(None),
        Err(failure) => Err(AuthError::DatabaseError(DbError::from(failure))),
    }
}

/// A parser's description of its error, as a sequence of characters.
pub open spec fn failure_view(parse_failure: Option<String>) -> Option<Seq<char>> {
    match parse_failure {
        Some(detail) => Some(detail@),
        None => None,
    }
}

/// Says what the parser's and the verifier's answers mean for a check:
/// `parse_failure` is the parser's description of its error, if the hash did
/// not parse, and `accepted` tells whether the verifier accepted the
/// candidate.
pub fn password_verdict(parse_failure: Option<String>, accepted: bool) -> (outcome: Result<
    (),
    AuthError,
>)
    ensures
        outcome_view(outcome) == verdict(failure_view(parse_failure), accepted),
{
    match parse_failure {
        Some(detail) => {
            let mut message = String::from_str("Error during password hashing, details: ");
            message.append(detail.as_str());
            Err(AuthError::UnexpectedError(message))
        },
        None => {
            if accepted {
                Ok(())
            } else {
                Err(
                    AuthError::InvalidCredentials(
                        String::from_str("Incorrect username or password."),
                    ),
                )
            }
        },
    }
}

/// Verifies a candidate password against a hash in PHC string form. A hash
/// that does not parse is not verified against.
pub fn verify_password_hash(expected_password_hash: Secret, password_candidate: Secret) -> (outcome:
    Result<(), AuthError>)
    ensures
        outcome_view(outcome) == password_check(expected_password_hash@, password_candidate@),
{
    let hash = expected_password_hash.expose_secret().as_str();
    let parse_failure = phc_parse_failure(hash);
    let accepted = match parse_failure {
        Some(_) => false,
        None => argon2_verify(password_candidate.expose_secret().as_str().as_bytes(), hash),
    };
    password_verdict(parse_failure, accepted)
}

/// Settles a check whose verification ended in `verified`, for the user
/// that the lookup found, if it found one.
pub fn credentials_outcome(user_id: Option<u128>, verified: Result<(), AuthError>) -> (outcome:
    Result<u128, AuthError>)
    ensures
        outcome_view(outcome) == settled(user_id, outcome_view(verified)),
{
    match verified {
        Err(error) => Err(error),
        Ok(()) => match user_id {
            Some(user_id) => Ok(user_id),
            None => Err(
                AuthError::UnexpectedError(
                    String::from_str("An error occurred while getting the user_id"),
                ),
            ),
        },
    }
}

/// Checks submitted credentials against what the users table holds for the
/// user name.
///
/// An unknown user is not turned away early: the candidate is verified like
/// any other, against the placeholder hash, and the contract leaves no other
/// way to the result, since only the verification tells what Argon2 makes of
/// the candidate.
pub fn validate_credentials(
    credentials: Credentials,
    fetched: Result<Option<UserRow>, StoreFailure>,
) -> (outcome: Result<u128, AuthError>)
    ensures
        outcome_view(outcome) == validation(fetched, credentials.password@),
{
    let stored = get_user_password(fetched)?;
    let mut user_id: Option<u128> = None;
    let mut expected_password_hash = placeholder_secret();
    if let Some((stored_user_id, stored_password_hash)) = stored {
        user_id = Some(stored_user_id);
        expected_password_hash = stored_password_hash;
    }
    let verified = verify_password_hash(expected_password_hash, credentials.password);
    credentials_outcome(user_id, verified)
}

/// What becomes of a verification that was handed to a worker: its own
/// outcome where the worker finished, an unexpected error with the worker's
/// report where it did not.
pub open spec fn joined(handed: Result<Result<u128, AuthError>, String>) -> Result<
    u128,
    AuthErrorView,
> {
    match handed {
        Ok(outcome) => outcome_view(outcome),
        Err(report) => Err(AuthErrorView::UnexpectedError(worker_failure_prefix() + report@)),
    }
}

/// Takes a verification back from the worker it was handed to.
pub fn join_verification(handed: Result<Result<u128, AuthError>, String>) -> (outcome: Result<
    u128,
    AuthError,
>)
    ensures
        outcome_view(outcome) == joined(handed),
{
    match handed {
        Ok(outcome) => outcome,
        Err(report) => {
            let mut message = String::from_str(
                "An exception occurred in the thread while verifying the hashed password, details: ",
            );
            message.append(report.as_str());
            Err(AuthError::UnexpectedError(message))
        },
    }
}

} // verus!
