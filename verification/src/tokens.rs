//! The token table and the requests for a user's token, as a model: what
//! one request does alone, and what two do at once.
use crate::admin::{after_insert, after_read, TokenStepView, TOKEN_LENGTH};
use vstd::prelude::*;

verus! {

/// The token that a table holds for a user, if any. The table is a map from
/// user ids to tokens, so a user has at most one.
pub open spec fn stored_token(table: Map<u128, Seq<char>>, user_id: u128) -> Option<Seq<char>> {
    if table.dom().contains(user_id) {
        Some(table[user_id])
    } else {
        None
    }
}

/// An insertion that leaves a user's row alone where there is one: the
/// table after it, and whether the row went in.
pub open spec fn insert_if_absent(table: Map<u128, Seq<char>>, user_id: u128, token: Seq<char>)
    -> (Map<u128, Seq<char>>, bool) {
    if table.dom().contains(user_id) {
        (table, false)
    } else {
        (table.insert(user_id, token), true)
    }
}

/// How far a request for a user's token has come.
pub ghost enum Progress {
    /// The user's row is to be read.
    Reading,
    /// The token is to be inserted.
    Writing(Seq<char>),
    /// The request ended with the token.
    Finished(Seq<char>),
}

/// A request for a user's token: the user, the token that the request would
/// make for a user without one, and how far it has come.
pub ghost struct TokenRequest {
    pub user_id: u128,
    pub candidate: Seq<char>,
    pub progress: Progress,
}

/// A request that has not begun.
pub open spec fn new_request(user_id: u128, candidate: Seq<char>) -> TokenRequest {
    TokenRequest { user_id, candidate, progress: Progress::Reading }
}

/// Where a step of `get_token_value` or `token_inserted` leaves a request.
pub open spec fn progress_of(step: TokenStepView) -> Progress {
    match step {
        TokenStepView::Done(token) => Progress::Finished(token),
        TokenStepView::Insert { user_id, token } => Progress::Writing(token),
        TokenStepView::Read { user_id } => Progress::Reading,
    }
}

/// One exchange of a request with the table: a read, answered to
/// `get_token_value`, or an insertion, answered to `token_inserted`. A
/// request that has ended does nothing.
pub open spec fn exchange(request: TokenRequest, table: Map<u128, Seq<char>>) -> (
    TokenRequest,
    Map<u128, Seq<char>>,
) {
    match request.progress {
        Progress::Reading => (
            TokenRequest {
                progress: progress_of(
                    after_read(
                        request.user_id,
                        stored_token(table, request.user_id),
                        request.candidate,
                    ),
                ),
                ..request
            },
            table,
        ),
        Progress::Writing(token) => {
            let (written, inserted) = insert_if_absent(table, request.user_id, token);
            (
                TokenRequest {
                    progress: progress_of(after_insert(request.user_id, token, inserted)),
                    ..request
                },
                written,
            )
        },
        Progress::Finished(_) => (request, table),
    }
}

/// A request carried out with no other at work on the user's row.
pub open spec fn alone(request: TokenRequest, table: Map<u128, Seq<char>>) -> (
    TokenRequest,
    Map<u128, Seq<char>>,
) {
    let (read, table) = exchange(request, table);
    exchange(read, table)
}

/// Two requests carried out at once: at each turn of `schedule` the first
/// request makes its next exchange where the turn is `true`, and the second
/// where it is `false`.
pub open spec fn together(
    first: TokenRequest,
    second: TokenRequest,
    table: Map<u128, Seq<char>>,
    schedule: Seq<bool>,
) -> (TokenRequest, TokenRequest, Map<u128, Seq<char>>)
    decreases schedule.len(),
{
    if schedule.len() == 0 {
        (first, second, table)
    } else {
        let (first, second, table) = together(first, second, table, schedule.drop_last());
        if schedule.last() {
            let (first, table) = exchange(first, table);
            (first, second, table)
        } else {
            let (second, table) = exchange(second, table);
            (first, second, table)
        }
    }
}

/// A request on its own ends after two exchanges, with the token that the
/// table then holds for the user: the one that was there, with the table
/// unchanged, or else the request's own, as the one row added.
pub proof fn request_ends_with_stored_token(
    user_id: u128,
    candidate: Seq<char>,
    table: Map<u128, Seq<char>>,
)
    ensures
        ({
            let (request, after) = alone(new_request(user_id, candidate), table);
            match stored_token(table, user_id) {
                Some(token) => request.progress == Progress::Finished(token) && after == table,
                None => request.progress == Progress::Finished(candidate) && after == table.insert(
                    user_id,
                    candidate,
                ),
            }
        }),
{
}

/// A user without a token gets one. Where the table holds no row for the
/// user and the request makes a token of the length of every token, the
/// request ends with that token, which is not empty; the table is as before
/// but for the one row of the user, and the rows of all others are as they
/// were.
pub proof fn new_user_gets_a_token(
    user_id: u128,
    candidate: Seq<char>,
    table: Map<u128, Seq<char>>,
)
    requires
        stored_token(table, user_id) is None,
        candidate.len() == TOKEN_LENGTH,
    ensures
        ({
            let (request, after) = alone(new_request(user_id, candidate), table);
            &&& request.progress == Progress::Finished(candidate)
            &&& candidate.len() > 0
            &&& after == table.insert(user_id, candidate)
            &&& stored_token(after, user_id) == Some(candidate)
            &&& forall|other: u128|
                other != user_id ==> #[trigger] stored_token(after, other) == stored_token(
                    table,
                    other,
                )
        }),
{
}

/// A user's token is stable. Whatever a first request finds, a later one
/// for the same user ends with the same token and leaves the table as the
/// first left it.
pub proof fn token_is_stable(
    user_id: u128,
    first_candidate: Seq<char>,
    later_candidate: Seq<char>,
    table: Map<u128, Seq<char>>,
)
    ensures
        ({
            let (first, written) = alone(new_request(user_id, first_candidate), table);
            let (later, kept) = alone(new_request(user_id, later_candidate), written);
            &&& first.progress is Finished
            &&& later.progress == first.progress
            &&& kept == written
            &&& stored_token(kept, user_id) == Some(first.progress->Finished_0)
        }),
{
    request_ends_with_stored_token(user_id, first_candidate, table);
    let (first, written) = alone(new_request(user_id, first_candidate), table);
    request_ends_with_stored_token(user_id, later_candidate, written);
}

/// What holds at every turn of two requests at work on the row of a user
/// whom `before` holds no token for: until a row for the user is in the
/// table, the table is as before and neither request has ended; from then
/// on the table is as before but for that row, and a request that has ended
/// holds the row's token.
pub open spec fn in_step(
    first: TokenRequest,
    second: TokenRequest,
    table: Map<u128, Seq<char>>,
    before: Map<u128, Seq<char>>,
    user_id: u128,
) -> bool {
    &&& first.user_id == user_id
    &&& second.user_id == user_id
    &&& match stored_token(table, user_id) {
        None => table == before && !(first.progress is Finished) && !(second.progress
            is Finished),
        Some(token) => {
            &&& table == before.insert(user_id, token)
            &&& first.progress matches Progress::Finished(found) ==> found == token
            &&& second.progress matches Progress::Finished(found) ==> found == token
        },
    }
}

/// Two requests at once agree. Where a user without a token is asked for by
/// two requests whose exchanges with the table fall in any order, both
/// requests, once they have ended, hold the same token, and the table holds
/// that token as the one row added.
pub proof fn concurrent_requests_agree(
    user_id: u128,
    first_candidate: Seq<char>,
    second_candidate: Seq<char>,
    table: Map<u128, Seq<char>>,
    schedule: Seq<bool>,
)
    requires
        stored_token(table, user_id) is None,
    ensures
        ({
            let (first, second, after) = together(
                new_request(user_id, first_candidate),
                new_request(user_id, second_candidate),
                table,
                schedule,
            );
            &&& in_step(first, second, after, table, user_id)
            &&& first.progress is Finished && second.progress is Finished ==> {
                &&& first.progress == second.progress
                &&& stored_token(after, user_id) == Some(first.progress->Finished_0)
                &&& after == table.insert(user_id, first.progress->Finished_0)
            }
        }),
    decreases schedule.len(),
{
    if schedule.len() > 0 {
        concurrent_requests_agree(
            user_id,
            first_candidate,
            second_candidate,
            table,
            schedule.drop_last(),
        );
    }
}

/// Two requests at once both end. However their exchanges fall, a request
/// that has had three turns has ended.
pub proof fn three_turns_end_a_request(
    user_id: u128,
    first_candidate: Seq<char>,
    second_candidate: Seq<char>,
    table: Map<u128, Seq<char>>,
    schedule: Seq<bool>,
)
    ensures
        ({
            let (first, second, after) = together(
                new_request(user_id, first_candidate),
                new_request(user_id, second_candidate),
                table,
                schedule,
            );
            &&& turns(schedule, true) >= 3 ==> first.progress is Finished
            &&& turns(schedule, false) >= 3 ==> second.progress is Finished
        }),
{
    turns_bound_progress(user_id, first_candidate, second_candidate, table, schedule);
}

/// How many turns of a schedule go to one of the two requests.
pub open spec fn turns(schedule: Seq<bool>, of_first: bool) -> nat
    decreases schedule.len(),
{
    if schedule.len() == 0 {
        0
    } else {
        turns(schedule.drop_last(), of_first) + if schedule.last() == of_first {
            1nat
        } else {
            0nat
        }
    }
}

/// How far a request can be after a number of turns: it is still to read
/// before its first turn, or after its second where another request's row
/// got in first; it is to write after its first turn.
spec fn on_course(request: TokenRequest, table: Map<u128, Seq<char>>, turns_taken: nat) -> bool {
    match request.progress {
        Progress::Reading => turns_taken == 0 || (turns_taken == 2 && stored_token(
            table,
            request.user_id,
        ) is Some),
        Progress::Writing(_) => turns_taken == 1,
        Progress::Finished(_) => true,
    }
}

/// Both requests are on course after every schedule.
proof fn turns_bound_progress(
    user_id: u128,
    first_candidate: Seq<char>,
    second_candidate: Seq<char>,
    table: Map<u128, Seq<char>>,
    schedule: Seq<bool>,
)
    ensures
        ({
            let (first, second, after) = together(
                new_request(user_id, first_candidate),
                new_request(user_id, second_candidate),
                table,
                schedule,
            );
            &&& first.user_id == user_id
            &&& second.user_id == user_id
            &&& on_course(first, after, turns(schedule, true))
            &&& on_course(second, after, turns(schedule, false))
        }),
    decreases schedule.len(),
{
    if schedule.len() > 0 {
        turns_bound_progress(
            user_id,
            first_candidate,
            second_candidate,
            table,
            schedule.drop_last(),
        );
    }
}

} // verus!
