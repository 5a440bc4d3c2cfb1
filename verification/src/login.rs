//! A login attempt in two halves: the throttle's check before anything is
//! looked up, and the completion once the credentials have been checked.
use crate::authentication::{
    auth_error_text, outcome_view, AuthError, AuthErrorView, Credentials,
};
use crate::clock::Timestamp;
use crate::flash::{flash_message, flash_paragraph, Flash, Level, Redirect};
use crate::identifier::{format_uuid, uuid_parse, uuid_text};
use crate::secret::Secret;
use crate::session::{SessionRecord, SessionView, UserData, UserDataView};
use crate::throttle::{FailedLoginAttempt, ThrottlePolicy};
use vstd::prelude::*;
use vstd::string::StringExecFns;

verus! {

/// Why a login did not succeed. Each holds what caused it, for the server's
/// own records; what the user is told depends on the kind alone.
#[derive(Debug, PartialEq, Eq)]
pub enum LoginError {
    /// The credentials were not valid.
    AuthError(String),
    /// The store, the hashing or the library itself failed.
    UnexpectedError(String),
    /// The throttle is locked.
    MaxAttemptsExceeded(String),
}

/// A `LoginError` with its texts as sequences of characters.
pub ghost enum LoginErrorView {
    AuthError(Seq<char>),
    UnexpectedError(Seq<char>),
    MaxAttemptsExceeded(Seq<char>),
}

impl View for LoginError {
    type V = LoginErrorView;

    open spec fn view(&self) -> LoginErrorView {
        match *self {
            LoginError::AuthError(cause) => LoginErrorView::AuthError(cause@),
            LoginError::UnexpectedError(cause) => LoginErrorView::UnexpectedError(cause@),
            LoginError::MaxAttemptsExceeded(cause) => LoginErrorView::MaxAttemptsExceeded(cause@),
        }
    }
}

/// What the user is told of a failed login: one text for each kind, the same
/// whatever the cause.
pub open spec fn login_error_message(error: LoginErrorView) -> Seq<char> {
    match error {
        LoginErrorView::AuthError(_) => "Incorrect username or password"@,
        LoginErrorView::UnexpectedError(_) => "Something went wrong"@,
        LoginErrorView::MaxAttemptsExceeded(_) =>
            "Maximum login attempts exceeded. Please try again later"@,
    }
}

/// What the server records as the cause of a locked throttle.
pub open spec fn lock_cause() -> Seq<char> {
    "You have exceeded the maximum number of error attempts"@
}

impl LoginError {
    /// What the user is told.
    pub fn to_string(&self) -> (message: String)
        ensures
            message@ == login_error_message(self@),
    {
        match self {
            LoginError::AuthError(_) => String::from_str("Incorrect username or password"),
            LoginError::UnexpectedError(_) => String::from_str("Something went wrong"),
            LoginError::MaxAttemptsExceeded(_) => String::from_str(
                "Maximum login attempts exceeded. Please try again later",
            ),
        }
    }
}

/// The login failure that a failed check becomes: invalid credentials stay
/// what they are, everything else is an unexpected error.
pub open spec fn login_failure(error: AuthErrorView) -> LoginErrorView {
    match error {
        AuthErrorView::InvalidCredentials(_) => LoginErrorView::AuthError(auth_error_text(error)),
        _ => LoginErrorView::UnexpectedError(auth_error_text(error)),
    }
}

/// What a login form holds.
pub struct FormData {
    pub username: String,
    pub password: Secret,
}

/// The throttle's handle on a session: its working copy of the record, and
/// the policy it goes by.
#[derive(Clone, Copy, Debug, PartialEq, Eq, Structural)]
pub struct LoginInfo {
    pub failed_info: FailedLoginAttempt,
    pub policy: ThrottlePolicy,
}

impl LoginInfo {
    /// The key of the throttle's record in the session store's record.
    pub const LOGIN_INFO_KEY: &'static str = "user.login";

    /// The handle on a session as a request finds it: with the session's
    /// record, or with a fresh one where the session has none yet.
    pub fn from_session(session: &SessionRecord, now: Timestamp, policy: ThrottlePolicy) -> (info:
        LoginInfo)
        ensures
            info == handle(session@, now, policy),
    {
        let failed_info = match session.login_info {
            Some(record) => record,
            None => FailedLoginAttempt::new(now),
        };
        LoginInfo { failed_info, policy }
    }

    /// Counts one more failed attempt, made at `now`, and writes the record
    /// to the session.
    pub fn add_failed_count(&mut self, session: &mut SessionRecord, now: Timestamp)
        requires
            old(self).failed_info.failed_attempt_count < usize::MAX,
        ensures
            final(self).policy == old(self).policy,
            final(self).failed_info == old(self).failed_info.after_failure(now),
            final(self).failed_info.failed_attempt_count == old(
                self,
            ).failed_info.failed_attempt_count + 1,
            final(session)@ == (SessionView {
                login_info: Some(final(self).failed_info),
                ..old(session)@
            }),
    {
        self.failed_info.add_failed_count(now);
        let failed_info = self.failed_info;
        self.update_login_failed_info(session, &failed_info);
    }

    /// Starts the record anew as of `now`, in the working copy and in the
    /// session.
    pub fn flush_failed_info(&mut self, session: &mut SessionRecord, now: Timestamp)
        ensures
            final(self).policy == old(self).policy,
            final(self).failed_info == FailedLoginAttempt::fresh(now),
            final(session)@ == (SessionView {
                login_info: Some(FailedLoginAttempt::fresh(now)),
                ..old(session)@
            }),
    {
        let new_failed_info = FailedLoginAttempt::new(now);
        self.failed_info = new_failed_info;
        self.update_login_failed_info(session, &new_failed_info);
    }

    /// Writes a record to the session, under the throttle's key.
    pub fn update_login_failed_info(
        &self,
        session: &mut SessionRecord,
        failed_info: &FailedLoginAttempt,
    )
        ensures
            final(session)@ == (SessionView { login_info: Some(*failed_info), ..old(session)@ }),
    {
        session.login_info = Some(*failed_info);
    }
}

/// What the throttle makes of an attempt before anything is looked up.
pub ghost enum Gate {
    /// The attempt is turned away.
    Locked,
    /// The cooldown of a lock is over: the record starts anew, and the
    /// attempt goes on.
    Reopened,
    /// The attempt goes on.
    Open,
}

/// The throttle's verdict on an attempt at `now`, given the record in the
/// session.
pub open spec fn gate(record: Option<FailedLoginAttempt>, now: Timestamp, policy: ThrottlePolicy)
    -> Gate {
    match record {
        Some(info) => if info.locked(now, policy) {
            Gate::Locked
        } else if info.cooled_down(now, policy) {
            Gate::Reopened
        } else {
            Gate::Open
        },
        None => Gate::Open,
    }
}

/// The handle that a request at `now` takes on a session.
pub open spec fn handle(session: SessionView, now: Timestamp, policy: ThrottlePolicy) -> LoginInfo {
    LoginInfo {
        failed_info: match session.login_info {
            Some(record) => record,
            None => FailedLoginAttempt::fresh(now),
        },
        policy,
    }
}

/// The session and the throttle's handle after the throttle's check at
/// `now`: the record starts anew where the cooldown of a lock is over, and
/// nothing changes otherwise.
pub open spec fn after_gate(session: SessionView, info: LoginInfo, now: Timestamp) -> (
    SessionView,
    LoginInfo,
) {
    match gate(session.login_info, now, info.policy) {
        Gate::Reopened => (
            SessionView { login_info: Some(FailedLoginAttempt::fresh(now)), ..session },
            LoginInfo { failed_info: FailedLoginAttempt::fresh(now), ..info },
        ),
        _ => (session, info),
    }
}

/// The session, the throttle's handle and the answer after the credential
/// check ended in `outcome` at `now`.
///
/// On success the session holds the user's data and is marked for a fresh
/// identifier, and the throttle's record starts anew. Invalid credentials
/// count as one more failed attempt. Any other failure changes nothing.
pub open spec fn completion(
    session: SessionView,
    info: LoginInfo,
    user_name: Seq<char>,
    outcome: Result<u128, AuthErrorView>,
    now: Timestamp,
) -> (SessionView, LoginInfo, Result<UserDataView, LoginErrorView>) {
    match outcome {
        Ok(user_id) => {
            let user = UserDataView { user_id: uuid_text(user_id), user_name };
            (
                SessionView {
                    user_data: Some(user),
                    login_info: Some(FailedLoginAttempt::fresh(now)),
                    cycle_id: true,
                },
                LoginInfo { failed_info: FailedLoginAttempt::fresh(now), ..info },
                Ok(user),
            )
        },
        Err(error) => if error is InvalidCredentials {
            let counted = info.failed_info.after_failure(now);
            (
                SessionView { login_info: Some(counted), ..session },
                LoginInfo { failed_info: counted, ..info },
                Err(login_failure(error)),
            )
        } else {
            (session, info, Err(login_failure(error)))
        },
    }
}

/// The answer of a login with its texts as sequences of characters.
pub open spec fn answer_view(answer: Result<UserData, LoginError>) -> Result<
    UserDataView,
    LoginErrorView,
> {
    match answer {
        Ok(user) => Ok(user@),
        Err(error) => Err(error@),
    }
}

/// How a login goes on after the throttle's check.
pub enum LoginStep {
    /// The attempt goes on: the user is to be looked up and the credentials
    /// checked, and `login_complete` takes the outcome.
    Proceed { credentials: Credentials, user_name: String },
    /// The attempt ends here, and nothing is to be looked up.
    Reject(LoginError),
}

/// The first half of a login: the throttle's check, before anything is
/// looked up.
///
/// A locked throttle ends the attempt and leaves everything as it is. Where
/// the cooldown of a lock is over, the record starts anew, in the session
/// and in the working copy. In every case but the first the form's
/// credentials are handed on.
pub fn login(
    session: &mut SessionRecord,
    login_info: &mut LoginInfo,
    form: FormData,
    now: Timestamp,
) -> (step: LoginStep)
    ensures
        (final(session)@, *final(login_info)) == after_gate(old(session)@, *old(login_info), now),
        match step {
            LoginStep::Reject(error) => {
                &&& gate(old(session).login_info, now, old(login_info).policy) is Locked
                &&& error@ == LoginErrorView::MaxAttemptsExceeded(lock_cause())
            },
            LoginStep::Proceed { credentials, user_name } => {
                &&& !(gate(old(session).login_info, now, old(login_info).policy) is Locked)
                &&& credentials.username@ == form.username@
                &&& credentials.password@ == form.password@
                &&& user_name@ == form.username@
            },
        },
{
    if let Some(login_failed_info) = session.login_info {
        if login_failed_info.has_exceeded(&login_info.policy) {
            if login_failed_info.is_locked(now, &login_info.policy) {
                return LoginStep::Reject(
                    LoginError::MaxAttemptsExceeded(
                        String::from_str("You have exceeded the maximum number of error attempts"),
                    ),
                );
            } else {
                login_info.flush_failed_info(session, now);
            }
        }
    }
    let credentials = Credentials { username: form.username.clone(), password: form.password };
    LoginStep::Proceed { credentials, user_name: form.username }
}

/// The second half of a login: what the outcome of the credential check
/// does to the session, and what the caller is told.
///
/// The user id that a successful login writes to the session is one that
/// the dashboard reads back as the same user.
pub fn login_complete(
    session: &mut SessionRecord,
    login_info: &mut LoginInfo,
    user_name: String,
    outcome: Result<u128, AuthError>,
    now: Timestamp,
) -> (answer: Result<UserData, LoginError>)
    requires
        outcome matches Err(AuthError::InvalidCredentials(_)) ==> old(
            login_info,
        ).failed_info.failed_attempt_count < usize::MAX,
    ensures
        (final(session)@, *final(login_info), answer_view(answer)) == completion(
            old(session)@,
            *old(login_info),
            user_name@,
            outcome_view(outcome),
            now,
        ),
        answer matches Ok(user) ==> outcome is Ok && uuid_parse(user.user_id@) == Some(
            outcome->Ok_0,
        ),
{
    match outcome {
        Ok(user_id) => {
            let user_data = UserData { user_id: format_uuid(user_id), user_name };
            session.user_data = Some(user_data.clone());
            session.cycle_id = true;
            login_info.flush_failed_info(session, now);
            Ok(user_data)
        },
        Err(error) => {
            let cause = error.to_string();
            match error {
                AuthError::InvalidCredentials(_) => {
                    login_info.add_failed_count(session, now);
                    Err(LoginError::AuthError(cause))
                },
                _ => Err(LoginError::UnexpectedError(cause)),
            }
        },
    }
}

/// The answer to a failed login: back to the login page, with what the user
/// is told as the page's message.
pub fn login_redirect(e: LoginError) -> (redirect: Redirect)
    ensures
        redirect.location@ == "/login"@,
        redirect.flash matches Some(flash) && flash.level == Level::Error && flash.message@
            == flash_paragraph(login_error_message(e@)),
{
    let message = e.to_string();
    Redirect {
        location: String::from_str("/login"),
        flash: Some(Flash { level: Level::Error, message: flash_message(message.as_str()) }),
    }
}

} // verus!
