//! What the login flow reads and writes of a session.
use crate::throttle::FailedLoginAttempt;
use vstd::prelude::*;

verus! {

/// Who a session belongs to once its user has logged in.
#[derive(Debug, PartialEq, Eq)]
pub struct UserData {
    pub user_id: String,
    pub user_name: String,
}

/// A `UserData` with its texts as sequences of characters.
pub ghost struct UserDataView {
    pub user_id: Seq<char>,
    pub user_name: Seq<char>,
}

impl View for UserData {
    type V = UserDataView;

    open spec fn view(&self) -> UserDataView {
        UserDataView { user_id: self.user_id@, user_name: self.user_name@ }
    }
}

impl Clone for UserData {
    fn clone(&self) -> (copy: UserData)
        ensures
            copy == *self,
    {
        UserData { user_id: self.user_id.clone(), user_name: self.user_name.clone() }
    }
}

/// The key of the user's data in the session store's record.
pub const USER_DATA_KEY: &'static str = "user.data";

/// What the login flow reads and writes of one session's record in the
/// session store.
#[derive(Debug, PartialEq, Eq)]
pub struct SessionRecord {
    /// The entry under `USER_DATA_KEY`: there while a user is logged in.
    pub user_data: Option<UserData>,
    /// The entry under `LoginInfo::LOGIN_INFO_KEY`: the throttle's record.
    pub login_info: Option<FailedLoginAttempt>,
    /// Whether the session is to get a fresh identifier when it is saved.
    pub cycle_id: bool,
}

/// A `SessionRecord` with its texts as sequences of characters.
pub ghost struct SessionView {
    pub user_data: Option<UserDataView>,
    pub login_info: Option<FailedLoginAttempt>,
    pub cycle_id: bool,
}

impl View for SessionRecord {
    type V = SessionView;

    open spec fn view(&self) -> SessionView {
        SessionView {
            user_data: match self.user_data {
                Some(user) => Some(user@),
                None => None,
            },
            login_info: self.login_info,
            cycle_id: self.cycle_id,
        }
    }
}

impl SessionRecord {
    /// The record of a session that nothing was written to yet.
    pub fn new() -> (record: SessionRecord)
        ensures
            record@ == (SessionView { user_data: None, login_info: None, cycle_id: false }),
    {
        SessionRecord { user_data: None, login_info: None, cycle_id: false }
    }
}

} // verus!
