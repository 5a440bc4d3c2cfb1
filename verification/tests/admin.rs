use std::collections::HashMap;

use weather_forecast_wechat_bot::admin::{
    admin_dashboard, get_token_value, log_out, token_inserted, DashboardError, DashboardUser,
    TokenStep, TOKEN_LENGTH,
};
use weather_forecast_wechat_bot::authentication::AuthError;
use weather_forecast_wechat_bot::clock::Timestamp;
use weather_forecast_wechat_bot::errors::{DbError, StoreFailure};
use weather_forecast_wechat_bot::flash::Level;
use weather_forecast_wechat_bot::login::{login_complete, LoginInfo};
use weather_forecast_wechat_bot::session::{SessionRecord, UserData};
use weather_forecast_wechat_bot::throttle::{FailedLoginAttempt, ThrottlePolicy};

fn user(user_id: &str, user_name: &str) -> UserData {
    UserData { user_id: user_id.to_string(), user_name: user_name.to_string() }
}

#[test]
fn the_dashboard_is_for_the_user_of_the_session() {
    let stored = Ok(Some(user("a1a2a3a4-b1b2-c1c2-d1d2-d3d4d5d6d7d8", "alice")));
    assert_eq!(
        admin_dashboard(stored),
        Ok(DashboardUser {
            user_id: 0xa1a2a3a4b1b2c1c2d1d2d3d4d5d6d7d8,
            user_name: "alice".to_string()
        })
    );
    // The parser reads the other forms of a UUID as well.
    let simple = Ok(Some(user("A1A2A3A4B1B2C1C2D1D2D3D4D5D6D7D8", "alice")));
    assert_eq!(admin_dashboard(simple).unwrap().user_id, 0xa1a2a3a4b1b2c1c2d1d2d3d4d5d6d7d8);
}

#[test]
fn a_session_without_a_user_has_no_dashboard() {
    assert_eq!(
        admin_dashboard(Ok(None)),
        Err(DashboardError::SessionNotFound("User session data not found".to_string()))
    );
}

#[test]
fn a_session_entry_that_cannot_be_read_has_no_dashboard() {
    assert_eq!(
        admin_dashboard(Err("invalid type: integer".to_string())),
        Err(DashboardError::InvalidSessionData(
            "Session query error, details: invalid type: integer".to_string()
        ))
    );
}

#[test]
fn a_user_id_that_is_no_uuid_has_no_dashboard() {
    let answer = admin_dashboard(Ok(Some(user("alice", "alice"))));
    assert!(matches!(answer, Err(DashboardError::UuidParseError(_))));
    let short = admin_dashboard(Ok(Some(user("a1a2a3a4-b1b2-c1c2-d1d2-d3d4d5d6d7d", "alice"))));
    assert!(matches!(short, Err(DashboardError::UuidParseError(_))));
}

#[test]
fn a_login_opens_the_dashboard_for_the_same_user() {
    let now = Timestamp::from_secs(50);
    let mut session = SessionRecord::new();
    let mut login_info = LoginInfo::from_session(&session, now, ThrottlePolicy::default());
    let user_id: u128 = 0x0123456789abcdef_fedcba9876543210;
    let answer = login_complete(&mut session, &mut login_info, "carol".to_string(), Ok(user_id), now);
    assert_eq!(answer, Ok(user("01234567-89ab-cdef-fedc-ba9876543210", "carol")));
    assert_eq!(login_info.failed_info, FailedLoginAttempt { failed_attempt_count: 0, last_attempt: now });

    let found = admin_dashboard(Ok(session.user_data)).unwrap();
    assert_eq!(found, DashboardUser { user_id, user_name: "carol".to_string() });
}

#[test]
fn user_ids_are_written_with_all_their_digits() {
    let now = Timestamp::from_secs(50);
    let text_of = |user_id: u128| {
        let mut session = SessionRecord::new();
        let mut login_info = LoginInfo::from_session(&session, now, ThrottlePolicy::default());
        login_complete(&mut session, &mut login_info, String::new(), Ok(user_id), now)
            .unwrap()
            .user_id
    };
    assert_eq!(text_of(0), "00000000-0000-0000-0000-000000000000");
    assert_eq!(text_of(1), "00000000-0000-0000-0000-000000000001");
    assert_eq!(text_of(u128::MAX), "ffffffff-ffff-ffff-ffff-ffffffffffff");
    assert_eq!(text_of(0xa1a2a3a4b1b2c1c2d1d2d3d4d5d6d7d8), "a1a2a3a4-b1b2-c1c2-d1d2-d3d4d5d6d7d8");
    assert_eq!(text_of(1 << 127), "80000000-0000-0000-0000-000000000000");
}

#[test]
fn an_unexpected_failure_leaves_the_session_alone() {
    let now = Timestamp::from_secs(50);
    let mut session = SessionRecord::new();
    session.login_info = Some(FailedLoginAttempt { failed_attempt_count: 2, last_attempt: now });
    let mut login_info = LoginInfo::from_session(&session, now, ThrottlePolicy::default());
    let outcome = Err(AuthError::UnexpectedError("worker".to_string()));
    let answer = login_complete(&mut session, &mut login_info, "carol".to_string(), outcome, now);
    assert!(answer.is_err());
    assert_eq!(
        session,
        SessionRecord {
            user_data: None,
            login_info: Some(FailedLoginAttempt { failed_attempt_count: 2, last_attempt: now }),
            cycle_id: false
        }
    );
}

#[test]
fn logging_out_removes_the_user_and_says_so() {
    let mut session = SessionRecord {
        user_data: Some(user("a1a2a3a4-b1b2-c1c2-d1d2-d3d4d5d6d7d8", "alice")),
        login_info: Some(FailedLoginAttempt {
            failed_attempt_count: 0,
            last_attempt: Timestamp::from_secs(3),
        }),
        cycle_id: false,
    };
    let redirect = log_out(&mut session);
    assert_eq!(redirect.location, "/login");
    let flash = redirect.flash.unwrap();
    assert_eq!(flash.level, Level::Info);
    assert_eq!(flash.message, "<p><i>You have successfully logged out.</i></p>");
    assert_eq!(
        session,
        SessionRecord {
            user_data: None,
            login_info: Some(FailedLoginAttempt {
                failed_attempt_count: 0,
                last_attempt: Timestamp::from_secs(3),
            }),
            cycle_id: true,
        }
    );
}

#[test]
fn logging_out_of_nothing_says_nothing() {
    let mut session = SessionRecord::new();
    let redirect = log_out(&mut session);
    assert_eq!(redirect.location, "/login");
    assert_eq!(redirect.flash, None);
    assert_eq!(session, SessionRecord { user_data: None, login_info: None, cycle_id: true });
}

#[test]
fn a_token_that_is_there_is_the_users_token() {
    assert_eq!(
        get_token_value(5, Ok(Some("kept".to_string()))),
        Ok(TokenStep::Done("kept".to_string()))
    );
}

#[test]
fn a_user_without_a_token_gets_a_new_one_to_insert() {
    let first = get_token_value(5, Ok(None)).unwrap();
    let second = get_token_value(5, Ok(None)).unwrap();
    let token_of = |step: &TokenStep| match step {
        TokenStep::Insert { user_id, token } => {
            assert_eq!(*user_id, 5);
            token.clone()
        }
        other => panic!("{:?}", other),
    };
    let (first, second) = (token_of(&first), token_of(&second));
    assert_eq!(TOKEN_LENGTH, 22);
    assert_eq!(first.len(), TOKEN_LENGTH);
    assert_eq!(second.len(), TOKEN_LENGTH);
    assert_eq!(first.chars().count(), 22);
    assert!(first.chars().all(|c| c.is_ascii_alphanumeric() || c == '-' || c == '_'));
    assert_ne!(first, second);
}

#[test]
fn an_insertion_ends_with_the_token_or_with_a_new_read() {
    assert_eq!(
        token_inserted(5, "mine".to_string(), Ok(true)),
        Ok(TokenStep::Done("mine".to_string()))
    );
    assert_eq!(token_inserted(5, "mine".to_string(), Ok(false)), Ok(TokenStep::Read { user_id: 5 }));
}

#[test]
fn a_failure_of_the_token_table_is_a_database_error() {
    let failure = || StoreFailure::Database { message: "connection closed".to_string() };
    let error = || {
        DashboardError::DatabaseError(DbError::ConnectionError {
            message: "connection closed".to_string(),
        })
    };
    assert_eq!(get_token_value(5, Err(failure())), Err(error()));
    assert_eq!(token_inserted(5, "mine".to_string(), Err(failure())), Err(error()));
}

/// A token table in memory: at most one row for a user.
struct Tokens {
    rows: HashMap<u128, String>,
}

/// A request for a user's token at some point of its work.
struct Request {
    step: TokenStep,
}

impl Request {
    fn new(user_id: u128) -> Request {
        Request { step: TokenStep::Read { user_id } }
    }

    fn token(&self) -> Option<&String> {
        match &self.step {
            TokenStep::Done(token) => Some(token),
            _ => None,
        }
    }

    /// One exchange with the table; a request that has ended does nothing.
    fn exchange(&mut self, table: &mut Tokens) {
        let step = std::mem::replace(&mut self.step, TokenStep::Read { user_id: 0 });
        self.step = match step {
            TokenStep::Done(token) => TokenStep::Done(token),
            TokenStep::Read { user_id } => {
                get_token_value(user_id, Ok(table.rows.get(&user_id).cloned())).unwrap()
            }
            TokenStep::Insert { user_id, token } => {
                let went_in = if table.rows.contains_key(&user_id) {
                    false
                } else {
                    table.rows.insert(user_id, token.clone());
                    true
                };
                token_inserted(user_id, token, Ok(went_in)).unwrap()
            }
        };
    }
}

#[test]
fn a_new_user_gets_a_token_of_its_own_and_one_row() {
    let mut table = Tokens { rows: HashMap::new() };
    table.rows.insert(1, "of another user".to_string());
    for user_id in 10u128..60 {
        let rows_before = table.rows.len();
        let mut request = Request::new(user_id);
        while request.token().is_none() {
            request.exchange(&mut table);
        }
        let token = request.token().unwrap().clone();
        assert_eq!(token.len(), TOKEN_LENGTH);
        assert!(!token.is_empty());
        assert_eq!(table.rows.len(), rows_before + 1);
        assert_eq!(table.rows.get(&user_id), Some(&token));
        assert_eq!(table.rows.values().filter(|stored| **stored == token).count(), 1);
    }
    assert_eq!(table.rows.get(&1), Some(&"of another user".to_string()));
}

#[test]
fn a_token_is_made_once_and_kept() {
    let mut table = Tokens { rows: HashMap::new() };
    table.rows.insert(1, "of another user".to_string());
    let mut first = Request::new(9);
    while first.token().is_none() {
        first.exchange(&mut table);
    }
    let token = first.token().unwrap().clone();
    assert_eq!(table.rows.get(&9), Some(&token));
    assert_eq!(table.rows.len(), 2);

    for _ in 0..3 {
        let mut again = Request::new(9);
        while again.token().is_none() {
            again.exchange(&mut table);
        }
        assert_eq!(again.token(), Some(&token));
        assert_eq!(table.rows.get(&9), Some(&token));
        assert_eq!(table.rows.len(), 2);
    }
    assert_eq!(table.rows.get(&1), Some(&"of another user".to_string()));
}

#[test]
fn two_requests_at_once_end_with_the_same_token() {
    // Every order in which six exchanges can fall to two requests.
    for schedule in 0u32..64 {
        let mut table = Tokens { rows: HashMap::new() };
        let mut first = Request::new(9);
        let mut second = Request::new(9);
        for turn in 0..6 {
            if schedule >> turn & 1 == 1 {
                first.exchange(&mut table);
            } else {
                second.exchange(&mut table);
            }
        }
        // Whoever has not had three turns gets them now.
        for _ in 0..3 {
            first.exchange(&mut table);
            second.exchange(&mut table);
        }
        let token = first.token().expect("the first request has ended");
        assert_eq!(second.token(), Some(token));
        assert_eq!(table.rows.len(), 1);
        assert_eq!(table.rows.get(&9), Some(token));
    }
}
