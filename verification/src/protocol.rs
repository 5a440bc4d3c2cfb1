//! What holds of login attempts as a whole: an attempt from its request to
//! its answer, runs of attempts on one session, and the laws of both.
use crate::authentication::{
    argon2_accepts, invalid_credentials_message, password_check, phc_parse_error,
    placeholder_hash, validate_credentials, validation, AuthErrorView, UserRow,
};
use crate::clock::{elapsed_nanos, Timestamp};
use crate::errors::{classify, StoreFailure};
use crate::flash::{escaped, flash_paragraph};
use crate::identifier::uuid_text;
use crate::login::{
    after_gate, answer_view, completion, gate, handle, lock_cause, login, login_complete,
    login_error_message, login_failure, FormData, Gate, LoginError, LoginErrorView, LoginInfo,
    LoginStep,
};
use crate::session::{SessionRecord, SessionView, UserData, UserDataView};
use crate::throttle::{FailedLoginAttempt, ThrottlePolicy};
use vstd::prelude::*;
use vstd::utf8::encode_utf8;

verus! {

/// One login attempt: what was submitted, what the users table returned for
/// the user name, and the times of the throttle's check and of the end of
/// the credential check.
pub ghost struct Attempt {
    pub user_name: Seq<char>,
    pub password: Seq<char>,
    pub fetched: Result<Option<UserRow>, StoreFailure>,
    pub checked_at: Timestamp,
    pub settled_at: Timestamp,
}

/// A login attempt from its request to its answer, as `LoginInfo::from_session`,
/// `login`, `validate_credentials` and `login_complete` carry it out in turn:
/// the session after it, and the answer. What was fetched plays no part
/// where the throttle is locked.
pub open spec fn attempt(session: SessionView, policy: ThrottlePolicy, a: Attempt) -> (
    SessionView,
    Result<UserDataView, LoginErrorView>,
) {
    let info = handle(session, a.checked_at, policy);
    if gate(session.login_info, a.checked_at, policy) is Locked {
        (session, Err(LoginErrorView::MaxAttemptsExceeded(lock_cause())))
    } else {
        let (admitted, info) = after_gate(session, info, a.checked_at);
        let (settled, _, answer) = completion(
            admitted,
            info,
            a.user_name,
            validation(a.fetched, a.password),
            a.settled_at,
        );
        (settled, answer)
    }
}

/// Carries out a login attempt in one go, for a users table that answers
/// at once: `lookup` is asked for the row of the form's user name, unless
/// the throttle is locked, and `now` is the time of the whole attempt.
pub fn login_with<F>(
    session: &mut SessionRecord,
    policy: ThrottlePolicy,
    form: FormData,
    now: Timestamp,
    lookup: F,
) -> (answer: Result<UserData, LoginError>) where
    F: FnOnce(&str) -> Result<Option<UserRow>, StoreFailure>,

    requires
        policy.max_failed_attempts < usize::MAX,
        forall|user_name: &str| call_requires(lookup, (user_name,)),
    ensures
        gate(old(session).login_info, now, policy) is Locked ==> forall|
            fetched: Result<Option<UserRow>, StoreFailure>,
        |
            (final(session)@, answer_view(answer)) == #[trigger] attempt(
                old(session)@,
                policy,
                whole_attempt(form, fetched, now),
            ),
        !(gate(old(session).login_info, now, policy) is Locked) ==> exists|
            user_name: &str,
            fetched: Result<Option<UserRow>, StoreFailure>,
        |
            {
                &&& user_name@ == form.username@
                &&& #[trigger] call_ensures(lookup, (user_name,), fetched)
                &&& (final(session)@, answer_view(answer)) == attempt(
                    old(session)@,
                    policy,
                    whole_attempt(form, fetched, now),
                )
            },
{
    let mut login_info = LoginInfo::from_session(session, now, policy);
    match login(session, &mut login_info, form, now) {
        LoginStep::Reject(error) => Err(error),
        LoginStep::Proceed { credentials, user_name } => {
            let asked = credentials.username.as_str();
            let fetched = lookup(asked);
            let outcome = validate_credentials(credentials, fetched);
            login_complete(session, &mut login_info, user_name, outcome, now)
        },
    }
}

/// The attempt that a form makes at `now`, given what the users table
/// returned for its user name.
pub open spec fn whole_attempt(
    form: FormData,
    fetched: Result<Option<UserRow>, StoreFailure>,
    now: Timestamp,
) -> Attempt {
    Attempt {
        user_name: form.username@,
        password: form.password@,
        fetched,
        checked_at: now,
        settled_at: now,
    }
}

/// The session after a run of login attempts, one after the other.
pub open spec fn after_attempts(session: SessionView, policy: ThrottlePolicy, attempts: Seq<Attempt>)
    -> SessionView
    decreases attempts.len(),
{
    if attempts.len() == 0 {
        session
    } else {
        attempt(after_attempts(session, policy, attempts.drop_last()), policy, attempts.last()).0
    }
}

/// How many attempts failed in a row, by a session's record.
pub open spec fn failed_attempts(session: SessionView) -> nat {
    match session.login_info {
        Some(record) => record.failed_attempt_count as nat,
        None => 0,
    }
}

/// Whether the credentials of an attempt are not valid: the check of the
/// password, against the user's hash or the placeholder, says so.
pub open spec fn has_invalid_credentials(a: Attempt) -> bool {
    validation(a.fetched, a.password) matches Err(AuthErrorView::InvalidCredentials(_))
}

/// Whether an attempt names a user of the table and gives the user's
/// password.
pub open spec fn has_valid_credentials(a: Attempt) -> bool {
    a.fetched matches Ok(Some(row)) && phc_parse_error(row.password_hash@) is None
        && argon2_accepts(encode_utf8(a.password), row.password_hash@)
}

/// An unknown user is verified like a known one. For a user that the table
/// does not hold, the outcome is what the check of the password against the
/// placeholder hash says, and never a success; for a user that it holds, the
/// outcome is what the same check against the stored hash says.
pub proof fn unknown_user_is_verified_like_any_other(row: UserRow, candidate: Seq<char>)
    ensures
        validation(Ok(None), candidate) == match password_check(placeholder_hash(), candidate) {
            Ok(()) => Err::<u128, AuthErrorView>(
                AuthErrorView::UnexpectedError(crate::authentication::missing_user_message()),
            ),
            Err(error) => Err(error),
        },
        validation(Ok(Some(row)), candidate) == match password_check(
            row.password_hash@,
            candidate,
        ) {
            Ok(()) => Ok::<u128, AuthErrorView>(row.user_id),
            Err(error) => Err(error),
        },
        validation(Ok(None), candidate) is Err,
{
}

/// A failure of the users table ends the check at once: the outcome is the
/// class of the failure, whatever was submitted, and says nothing of any
/// hash.
pub proof fn store_failure_ends_the_check(failure: StoreFailure, candidate: Seq<char>)
    ensures
        validation(Err(failure), candidate) == Err::<u128, AuthErrorView>(
            AuthErrorView::DatabaseError(classify(failure)@),
        ),
{
}

/// Invalid credentials look alike. Whether the user is unknown or the
/// password wrong, the error, the login failure made of it and the message
/// for the user are the same.
pub proof fn invalid_credentials_look_alike(first: Attempt, second: Attempt)
    requires
        has_invalid_credentials(first),
        has_invalid_credentials(second),
    ensures
        validation(first.fetched, first.password) == validation(second.fetched, second.password),
        validation(first.fetched, first.password) == Err::<u128, AuthErrorView>(
            AuthErrorView::InvalidCredentials(invalid_credentials_message()),
        ),
        login_failure(validation(first.fetched, first.password)->Err_0) == login_failure(
            validation(second.fetched, second.password)->Err_0,
        ),
        login_error_message(login_failure(validation(first.fetched, first.password)->Err_0))
            == login_error_message(
            login_failure(validation(second.fetched, second.password)->Err_0),
        ),
{
}

/// Invalid credentials leave the same trace. Two attempts with invalid
/// credentials, made at the same times on the same session, end alike,
/// whether the user is unknown or the password wrong: the same session
/// after, the same answer, and so the same message and the same way back
/// to the login page. Unless the throttle is locked, the answer is the one
/// for invalid credentials, with the one text for the user; while the
/// throttle lets attempts through, the count has grown by one.
pub proof fn invalid_credentials_leave_the_same_trace(
    session: SessionView,
    policy: ThrottlePolicy,
    first: Attempt,
    second: Attempt,
)
    requires
        has_invalid_credentials(first),
        has_invalid_credentials(second),
        first.checked_at == second.checked_at,
        first.settled_at == second.settled_at,
    ensures
        attempt(session, policy, first) == attempt(session, policy, second),
        !(gate(session.login_info, first.checked_at, policy) is Locked) ==> {
            &&& attempt(session, policy, first).1 matches Err(failure)
            &&& failure is AuthError
            &&& login_error_message(failure) == "Incorrect username or password"@
            &&& flash_paragraph(login_error_message(failure)) == "<p><i>"@ + escaped(
                "Incorrect username or password"@,
            ) + "</i></p>"@
        },
        gate(session.login_info, first.checked_at, policy) is Open && failed_attempts(session)
            < usize::MAX ==> failed_attempts(attempt(session, policy, first).0)
            == failed_attempts(session) + 1,
{
}

/// An unknown user never gets in. Whatever the password and whatever the
/// placeholder makes of it, the attempt fails, and the session holds the
/// user it held, if any.
pub proof fn unknown_user_never_gets_in(session: SessionView, policy: ThrottlePolicy, a: Attempt)
    requires
        a.fetched == Ok::<Option<UserRow>, StoreFailure>(None),
    ensures
        attempt(session, policy, a).1 is Err,
        attempt(session, policy, a).0.user_data == session.user_data,
        attempt(session, policy, a).0.cycle_id == session.cycle_id,
{
}

/// A login with valid credentials succeeds unless the throttle is locked:
/// the answer is the user, the session holds the user and is marked for a
/// fresh identifier, and no failed attempt is left on the record.
pub proof fn valid_credentials_succeed(session: SessionView, policy: ThrottlePolicy, a: Attempt)
    requires
        has_valid_credentials(a),
        !(gate(session.login_info, a.checked_at, policy) is Locked),
    ensures
        a.fetched matches Ok(Some(row)) && {
            let user = UserDataView { user_id: uuid_text(row.user_id), user_name: a.user_name };
            &&& attempt(session, policy, a).1 == Ok::<UserDataView, LoginErrorView>(user)
            &&& attempt(session, policy, a).0 == (SessionView {
                user_data: Some(user),
                login_info: Some(FailedLoginAttempt::fresh(a.settled_at)),
                cycle_id: true,
            })
        },
        failed_attempts(attempt(session, policy, a).0) == 0,
{
}

/// A locked throttle turns every attempt away, whatever its credentials, and
/// leaves the session as it is.
pub proof fn locked_throttle_rejects(session: SessionView, policy: ThrottlePolicy, a: Attempt)
    requires
        session.login_info matches Some(record) && record.locked(a.checked_at, policy),
    ensures
        gate(session.login_info, a.checked_at, policy) is Locked,
        attempt(session, policy, a) == (
            session,
            Err::<UserDataView, LoginErrorView>(LoginErrorView::MaxAttemptsExceeded(lock_cause())),
        ),
{
}

/// While the throttle lets attempts through, each attempt with invalid
/// credentials adds one to the count of failed attempts and sets the time of
/// the last to its own.
pub proof fn failures_are_counted(session: SessionView, policy: ThrottlePolicy, a: Attempt)
    requires
        policy.max_failed_attempts < usize::MAX,
        has_invalid_credentials(a),
        gate(session.login_info, a.checked_at, policy) is Open,
        failed_attempts(session) <= policy.max_failed_attempts,
    ensures
        attempt(session, policy, a).0.login_info == Some(
            FailedLoginAttempt {
                failed_attempt_count: (failed_attempts(session) + 1) as usize,
                last_attempt: a.settled_at,
            },
        ),
        failed_attempts(attempt(session, policy, a).0) == failed_attempts(session) + 1,
        attempt(session, policy, a).1 is Err,
{
}

/// A failed login leaves the session usable: whatever made the attempt
/// fail, the session holds the user it held, if any, and is marked for a
/// fresh identifier only if it was.
pub proof fn failure_keeps_the_session(session: SessionView, policy: ThrottlePolicy, a: Attempt)
    requires
        attempt(session, policy, a).1 is Err,
    ensures
        attempt(session, policy, a).0.user_data == session.user_data,
        attempt(session, policy, a).0.cycle_id == session.cycle_id,
{
}

/// While attempts fail and no cooldown has run out, the count of failed
/// attempts does not fall.
pub proof fn count_does_not_fall_while_failing(
    session: SessionView,
    policy: ThrottlePolicy,
    a: Attempt,
)
    requires
        policy.max_failed_attempts < usize::MAX,
        attempt(session, policy, a).1 is Err,
        !(gate(session.login_info, a.checked_at, policy) is Reopened),
    ensures
        failed_attempts(attempt(session, policy, a).0) >= failed_attempts(session),
{
}

/// The count of failed attempts goes at most one beyond what the policy
/// lets through: a session within that bound stays within it, whatever is
/// attempted.
pub proof fn count_stays_bounded(session: SessionView, policy: ThrottlePolicy, a: Attempt)
    requires
        policy.max_failed_attempts < usize::MAX,
        failed_attempts(session) <= policy.max_failed_attempts + 1,
    ensures
        failed_attempts(attempt(session, policy, a).0) <= policy.max_failed_attempts + 1,
{
}

/// The bound on the count holds after every run of attempts.
pub proof fn count_stays_bounded_for_good(
    session: SessionView,
    policy: ThrottlePolicy,
    attempts: Seq<Attempt>,
)
    requires
        policy.max_failed_attempts < usize::MAX,
        failed_attempts(session) <= policy.max_failed_attempts + 1,
    ensures
        failed_attempts(after_attempts(session, policy, attempts)) <= policy.max_failed_attempts
            + 1,
    decreases attempts.len(),
{
    if attempts.len() > 0 {
        count_stays_bounded_for_good(session, policy, attempts.drop_last());
        count_stays_bounded(
            after_attempts(session, policy, attempts.drop_last()),
            policy,
            attempts.last(),
        );
    }
}

/// A run of attempts with invalid credentials that starts within what the
/// policy lets through, and goes at most one beyond it, is counted attempt by
/// attempt: none of them is turned away.
pub proof fn consecutive_failures_add_up(
    session: SessionView,
    policy: ThrottlePolicy,
    attempts: Seq<Attempt>,
)
    requires
        policy.max_failed_attempts < usize::MAX,
        failed_attempts(session) + attempts.len() <= policy.max_failed_attempts + 1,
        forall|i: int| 0 <= i < attempts.len() ==> has_invalid_credentials(#[trigger] attempts[i]),
    ensures
        failed_attempts(after_attempts(session, policy, attempts)) == failed_attempts(session)
            + attempts.len(),
        attempts.len() > 0 ==> after_attempts(session, policy, attempts).login_info == Some(
            FailedLoginAttempt {
                failed_attempt_count: (failed_attempts(session) + attempts.len()) as usize,
                last_attempt: attempts.last().settled_at,
            },
        ),
    decreases attempts.len(),
{
    if attempts.len() > 0 {
        let earlier = attempts.drop_last();
        consecutive_failures_add_up(session, policy, earlier);
        let before = after_attempts(session, policy, earlier);
        failures_are_counted(before, policy, attempts.last());
    }
}

/// The lock engages on the failure after those that the policy lets through.
/// After that many attempts with invalid credentials and one more, on a
/// session without failed attempts, an attempt made before the cooldown is
/// over is turned away, and the session stays as it is: the throttle's check
/// says so before anything is looked up.
pub proof fn lock_engages_after_failures(
    session: SessionView,
    policy: ThrottlePolicy,
    attempts: Seq<Attempt>,
    next: Attempt,
)
    requires
        policy.max_failed_attempts < usize::MAX,
        failed_attempts(session) == 0,
        attempts.len() == policy.max_failed_attempts + 1,
        forall|i: int| 0 <= i < attempts.len() ==> has_invalid_credentials(#[trigger] attempts[i]),
        elapsed_nanos(attempts.last().settled_at, next.checked_at) < policy.cooldown_seconds as nat
            * 1_000_000_000,
    ensures
        gate(after_attempts(session, policy, attempts).login_info, next.checked_at, policy)
            is Locked,
        attempt(after_attempts(session, policy, attempts), policy, next) == (
            after_attempts(session, policy, attempts),
            Err::<UserDataView, LoginErrorView>(LoginErrorView::MaxAttemptsExceeded(lock_cause())),
        ),
{
    consecutive_failures_add_up(session, policy, attempts);
}

/// Once the cooldown of a lock is over, an attempt with valid credentials
/// succeeds, and no failed attempt is left on the record.
pub proof fn retry_after_cooldown_succeeds(session: SessionView, policy: ThrottlePolicy, a: Attempt)
    requires
        session.login_info matches Some(record) && record.exceeded(policy) && elapsed_nanos(
            record.last_attempt,
            a.checked_at,
        ) >= policy.cooldown_seconds as nat * 1_000_000_000,
        has_valid_credentials(a),
    ensures
        gate(session.login_info, a.checked_at, policy) is Reopened,
        attempt(session, policy, a).1 is Ok,
        failed_attempts(attempt(session, policy, a).0) == 0,
{
    valid_credentials_succeed(session, policy, a);
}

/// Once the cooldown of a lock is over, the count starts anew: an attempt
/// with invalid credentials then leaves one failed attempt on the record.
pub proof fn count_restarts_after_cooldown(session: SessionView, policy: ThrottlePolicy, a: Attempt)
    requires
        session.login_info matches Some(record) && record.cooled_down(a.checked_at, policy),
        has_invalid_credentials(a),
    ensures
        failed_attempts(attempt(session, policy, a).0) == 1,
{
}

} // verus!
