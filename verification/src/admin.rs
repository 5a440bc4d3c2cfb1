//! The dashboard's decisions: whose session it is, which token the user
//! has or gets, and what logging out does.
use crate::errors::{classify, DbError, DbErrorView, StoreFailure};
use crate::flash::{flash_message, flash_paragraph, Flash, Level, Redirect};
use crate::identifier::{parse_uuid, uuid_parse};
use crate::session::{SessionRecord, SessionView, UserData};
use tower_sessions::session::Id;
use vstd::prelude::*;
use vstd::std_specs::convert::FromSpec;
use vstd::string::StringExecFns;

verus! {

/// Why the dashboard could not be shown.
#[derive(Debug, PartialEq, Eq)]
pub enum DashboardError {
    /// The session holds no user.
    SessionNotFound(String),
    /// The session's entry for the user could not be read.
    InvalidSessionData(String),
    /// The token store could not be asked.
    DatabaseError(DbError),
    /// The user id in the session is no UUID.
    UuidParseError(uuid::Error),
}

/// A `DashboardError` with its texts as sequences of characters.
pub ghost enum DashboardErrorView {
    SessionNotFound(Seq<char>),
    InvalidSessionData(Seq<char>),
    DatabaseError(DbErrorView),
    UuidParseError,
}

impl View for DashboardError {
    type V = DashboardErrorView;

    open spec fn view(&self) -> DashboardErrorView {
        match *self {
            DashboardError::SessionNotFound(message) => DashboardErrorView::SessionNotFound(
                message@,
            ),
            DashboardError::InvalidSessionData(message) => DashboardErrorView::InvalidSessionData(
                message@,
            ),
            DashboardError::DatabaseError(error) => DashboardErrorView::DatabaseError(error@),
            DashboardError::UuidParseError(_) => DashboardErrorView::UuidParseError,
        }
    }
}

/// The user that a dashboard request is made for.
#[derive(Debug, PartialEq, Eq)]
pub struct DashboardUser {
    pub user_id: u128,
    pub user_name: String,
}

/// The message for a session without a user.
pub open spec fn no_user_message() -> Seq<char> {
    "User session data not found"@
}

/// The start of the message for a session entry that could not be read.
pub open spec fn session_failure_prefix() -> Seq<char> {
    "Session query error, details: "@
}

/// Who a dashboard request is made for, given what the session store
/// returned for the user's entry: the user whose id the entry holds as a
/// UUID, and an error where the entry could not be read, is not there or
/// holds no UUID.
pub open spec fn dashboard_user(stored: Result<Option<UserData>, String>) -> Result<
    (u128, Seq<char>),
    DashboardErrorView,
> {
    match stored {
        Err(detail) => Err(
            DashboardErrorView::InvalidSessionData(session_failure_prefix() + detail@),
        ),
        Ok(None) => Err(DashboardErrorView::SessionNotFound(no_user_message())),
        Ok(Some(user)) => match uuid_parse(user.user_id@) {
            Some(user_id) => Ok((user_id, user.user_name@)),
            None => Err(DashboardErrorView::UuidParseError),
        },
    }
}

/// The user of a dashboard request, or the error in the user's place, with
/// the texts as sequences of characters.
pub open spec fn user_view(user: Result<DashboardUser, DashboardError>) -> Result<
    (u128, Seq<char>),
    DashboardErrorView,
> {
    match user {
        Ok(found) => Ok((found.user_id, found.user_name@)),
        Err(error) => Err(error@),
    }
}

/// The user of a session entry whose user id was parsed: the user with the
/// parsed id, or the parser's error.
pub fn identified(user_name: String, parsed: Result<u128, uuid::Error>) -> (user: Result<
    DashboardUser,
    DashboardError,
>)
    ensures
        user == match parsed {
            Ok(user_id) => Ok::<DashboardUser, DashboardError>(DashboardUser { user_id, user_name }),
            Err(error) => Err(DashboardError::UuidParseError(error)),
        },
{
    match parsed {
        Ok(user_id) => Ok(DashboardUser { user_id, user_name }),
        Err(error) => Err(DashboardError::UuidParseError(error)),
    }
}

/// Finds out who a dashboard request is made for.
pub fn admin_dashboard(stored: Result<Option<UserData>, String>) -> (user: Result<
    DashboardUser,
    DashboardError,
>)
    ensures
        user_view(user) == dashboard_user(stored),
{
    match stored {
        Err(detail) => {
            let mut message = String::from_str("Session query error, details: ");
            message.append(detail.as_str());
            Err(DashboardError::InvalidSessionData(message))
        },
        Ok(None) => Err(
            DashboardError::SessionNotFound(String::from_str("User session data not found")),
        ),
        Ok(Some(user_data)) => {
            let parsed = parse_uuid(user_data.user_id.as_str());
            identified(user_data.user_name, parsed)
        },
    }
}

/// How many characters a token has: the 16 bytes of an identifier in
/// URL-safe base64 without padding.
pub const TOKEN_LENGTH: usize = 22;

/// `Id::default` of tower-sessions, displayed: a new random identifier as
/// text. Two calls may differ, so the contract says of the text only what
/// holds of every identifier: its 16 bytes are written in URL-safe base64
/// without padding, which makes 22 characters.
#[verifier::external_body]
fn new_token() -> (token: String)
    ensures
        token@.len() == TOKEN_LENGTH,
{
    format!("{}", Id::default())
}

/// What is to be done next for a user's token.
#[derive(Debug, PartialEq, Eq)]
pub enum TokenStep {
    /// The user's token: nothing is left to do.
    Done(String),
    /// The user has no token yet. This one is to be inserted unless a row
    /// for the user is there by then, and `token_inserted` takes what
    /// happened.
    Insert { user_id: u128, token: String },
    /// Another request gave the user a token meanwhile. The user's row is to
    /// be read again, and `get_token_value` takes it.
    Read { user_id: u128 },
}

/// A `TokenStep` with its texts as sequences of characters.
pub ghost enum TokenStepView {
    Done(Seq<char>),
    Insert { user_id: u128, token: Seq<char> },
    Read { user_id: u128 },
}

impl View for TokenStep {
    type V = TokenStepView;

    open spec fn view(&self) -> TokenStepView {
        match *self {
            TokenStep::Done(token) => TokenStepView::Done(token@),
            TokenStep::Insert { user_id, token } => TokenStepView::Insert {
                user_id,
                token: token@,
            },
            TokenStep::Read { user_id } => TokenStepView::Read { user_id },
        }
    }
}

/// A step, or the error in its place, with its texts as sequences of
/// characters.
pub open spec fn step_view(step: Result<TokenStep, DashboardError>) -> Result<
    TokenStepView,
    DashboardErrorView,
> {
    match step {
        Ok(next) => Ok(next@),
        Err(error) => Err(error@),
    }
}

/// What a read of a user's row found, as a sequence of characters.
pub open spec fn row_view(row: Option<String>) -> Option<Seq<char>> {
    match row {
        Some(token) => Some(token@),
        None => None,
    }
}

/// The step that follows a read of the user's row: the row's token where
/// there is one, and the insertion of `candidate` where there is none.
pub open spec fn after_read(user_id: u128, row: Option<Seq<char>>, candidate: Seq<char>)
    -> TokenStepView {
    match row {
        Some(token) => TokenStepView::Done(token),
        None => TokenStepView::Insert { user_id, token: candidate },
    }
}

/// The step that follows an insertion: the inserted token where the row
/// went in, and a new read where a row for the user was there already.
pub open spec fn after_insert(user_id: u128, token: Seq<char>, inserted: bool) -> TokenStepView {
    if inserted {
        TokenStepView::Done(token)
    } else {
        TokenStepView::Read { user_id }
    }
}

/// Decides on a user's token from what the token table holds for the user.
///
/// A token that is there is the user's token. Where there is none, a new one
/// is made for insertion: which one, no caller can foresee, but it has the
/// length of every token, and so is not empty.
pub fn get_token_value(user_id: u128, row: Result<Option<String>, StoreFailure>) -> (step: Result<
    TokenStep,
    DashboardError,
>)
    ensures
        match row {
            Ok(found) => exists|candidate: Seq<char>|
                candidate.len() == TOKEN_LENGTH && step_view(step) == Ok::<
                    TokenStepView,
                    DashboardErrorView,
                >(#[trigger] after_read(user_id, row_view(found), candidate)),
            Err(failure) => step_view(step) == Err::<TokenStepView, DashboardErrorView>(
                DashboardErrorView::DatabaseError(classify(failure)@),
            ),
        },
        row matches Ok(None) ==> {
            &&& step matches Ok(TokenStep::Insert { user_id: owner, token })
            &&& owner == user_id
            &&& token@.len() == TOKEN_LENGTH
        },
{
    match row {
        Ok(Some(token)) => {
            proof {
                let unused = Seq::new(TOKEN_LENGTH as nat, |position: int| '-');
                assert(unused.len() == TOKEN_LENGTH);
                assert(after_read(user_id, Some(token@), unused) == TokenStepView::Done(token@));
            }
            Ok(TokenStep::Done(token))
        },
        Ok(None) => {
            let token = new_token();
            assert(after_read(user_id, None, token@) == TokenStepView::Insert {
                user_id,
                token: token@,
            });
            Ok(TokenStep::Insert { user_id, token })
        },
        Err(failure) => Err(DashboardError::DatabaseError(DbError::from(failure))),
    }
}

/// Decides on a user's token from what became of the insertion of `token`:
/// `inserted` tells whether the row went in, or a row for the user was there
/// already.
pub fn token_inserted(user_id: u128, token: String, inserted: Result<bool, StoreFailure>) -> (step:
    Result<TokenStep, DashboardError>)
    ensures
        step_view(step) == match inserted {
            Ok(went_in) => Ok::<TokenStepView, DashboardErrorView>(
                after_insert(user_id, token@, went_in),
            ),
            Err(failure) => Err(DashboardErrorView::DatabaseError(classify(failure)@)),
        },
{
    match inserted {
        Ok(true) => Ok(TokenStep::Done(token)),
        Ok(false) => Ok(TokenStep::Read { user_id }),
        Err(failure) => Err(DashboardError::DatabaseError(DbError::from(failure))),
    }
}

/// What the user is told after logging out.
pub open spec fn logged_out_message() -> Seq<char> {
    "You have successfully logged out."@
}

/// Ends a session's login: the user's data leaves the session, the session
/// is marked for a fresh identifier, and the user is sent to the login page,
/// with a message where there was a login to end.
pub fn log_out(session: &mut SessionRecord) -> (redirect: Redirect)
    ensures
        final(session)@ == (SessionView { user_data: None, cycle_id: true, ..old(session)@ }),
        redirect.location@ == "/login"@,
        match old(session).user_data {
            Some(_) => redirect.flash matches Some(flash) && flash.level == Level::Info
                && flash.message@ == flash_paragraph(logged_out_message()),
            None => redirect.flash is None,
        },
{
    let was_logged_in = session.user_data.is_some();
    session.user_data = None;
    session.cycle_id = true;
    let flash = if was_logged_in {
        Some(
            Flash {
                level: Level::Info,
                message: flash_message("You have successfully logged out."),
            },
        )
    } else {
        None
    };
    Redirect { location: String::from_str("/login"), flash }
}

} // verus!
