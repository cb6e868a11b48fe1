use vstd::prelude::*;

use crate::models::user_model::{AccessView, SessionView, UserView};
use crate::oid::Oid;

verus! {

// The writes that the routes hand to the store, stated as what they make of
// a collection (held in the store's order). `update_one` changes the first
// document that matches its filter; where at most one document matches, as
// the laws below require, that is every matching document, which is how the
// updates are written here.

/// No user holds more than one session.
pub open spec fn one_session_per_user(s: Seq<SessionView>) -> bool {
    forall|i: int, j: int|
        0 <= i < s.len() && 0 <= j < s.len() && #[trigger] s[i].user_id == #[trigger] s[j].user_id
            ==> i == j
}

/// The user holds a session.
pub open spec fn has_session(s: Seq<SessionView>, user_id: Oid) -> bool {
    exists|i: int| 0 <= i < s.len() && #[trigger] s[i].user_id == user_id
}

/// Some session holds the token.
pub open spec fn holds_token(s: Seq<SessionView>, token: Seq<char>) -> bool {
    exists|i: int| 0 <= i < s.len() && #[trigger] s[i].token == token
}

/// At most one session holds the token.
pub open spec fn token_unique(s: Seq<SessionView>, token: Seq<char>) -> bool {
    forall|i: int, j: int|
        0 <= i < s.len() && 0 <= j < s.len() && #[trigger] s[i].token == token && #[trigger] s[j].token
            == token ==> i == j
}

/// The sessions after the user's session is given a new token and start
/// (`update_one({user_id}, {$set: {token, start_date}})`).
pub open spec fn renew_in_store(
    s: Seq<SessionView>,
    user_id: Oid,
    token: Seq<char>,
    start_date: i64,
) -> Seq<SessionView> {
    Seq::new(
        s.len(),
        |i: int|
            if s[i].user_id == user_id {
                SessionView { token, start_date, ..s[i] }
            } else {
                s[i]
            },
    )
}

/// The sessions after a login's session write: the user's session renewed
/// when the write replaces, the new session appended otherwise.
pub open spec fn store_after_write(
    s: Seq<SessionView>,
    session: SessionView,
    replace: bool,
) -> Seq<SessionView> {
    if replace {
        renew_in_store(s, session.user_id, session.token, session.start_date)
    } else {
        s.push(session)
    }
}

/// The users after a user's permissions are set
/// (`update_one({_id}, {$set: {access}})`).
pub open spec fn set_access_in_store(u: Seq<UserView>, id: Oid, access: AccessView) -> Seq<UserView> {
    Seq::new(u.len(), |i: int| if u[i].id == Some(id) { UserView { access, ..u[i] } } else { u[i] })
}

} // verus!
