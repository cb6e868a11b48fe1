use vstd::prelude::*;

use crate::header::{TokenHeader, TokenHeaderView};
use crate::models::user_model::{Access, AccessView, Session, SessionView, User, UserView};
use crate::oid::Oid;
use crate::status::Status;

verus! {

/// How long a session stays valid after it was issued or last renewed: 15 days.
pub const EXPIRATION_IN_MILLISECONDS: i64 = 1296000000;

/// The cost with which passwords are hashed.
pub const HASH_COST: u32 = 12;

// ---------------------------------------------------------------------------
// Password hashing
// ---------------------------------------------------------------------------

/// What `bcrypt::verify(password, hash)` returns: `None` where it fails (the
/// hash is not in bcrypt's format), else whether the password matches.
pub uninterp spec fn bcrypt_verifies(password: Seq<char>, hash: Seq<char>) -> Option<bool>;

/// The decimal digit for a number below ten.
pub open spec fn digit_char(d: int) -> char {
    (d + 0x30) as char
}

/// The first seven characters of a bcrypt hash made with `cost`: `$2b$`,
/// the cost in two digits, `$`.
pub open spec fn bcrypt_prefix(cost: u32) -> Seq<char> {
    seq!['$', '2', 'b', '$', digit_char((cost / 10) as int), digit_char((cost % 10) as int), '$']
}

/// A hash in the form that `bcrypt::hash` writes with `cost`: 60 characters
/// that start with [`bcrypt_prefix`].
pub open spec fn is_bcrypt_hash(h: Seq<char>, cost: u32) -> bool {
    &&& h.len() == 60
    &&& h.subrange(0, 7) == bcrypt_prefix(cost)
}

/// `hash` is a bcrypt hash of `password` made with the service's cost, and the
/// password verifies against it.
pub open spec fn is_password_hash(password: Seq<char>, hash: Seq<char>) -> bool {
    &&& is_bcrypt_hash(hash, HASH_COST)
    &&& bcrypt_verifies(password, hash) == Some(true)
}

/// Calls `bcrypt::hash(password, cost)`, which draws a random salt.
/// Claimed: it fails for a cost outside 4..=31; a hash it returns is 60
/// characters, `$2b$` + two-digit cost + `$` + salt + digest, and
/// `bcrypt::verify` of the same password against it returns `Ok(true)`.
/// It may also fail when the system gives no randomness; that is left open.
#[verifier::external_body]
fn bcrypt_hash(password: &str, cost: u32) -> (r: Option<String>)
    ensures
        !(4 <= cost && cost <= 31) ==> r is None,
        r matches Some(h) ==> is_bcrypt_hash(h@, cost) && bcrypt_verifies(password@, h@)
            == Some(true),
{
    match bcrypt::hash(password, cost) {
        Ok(h) => Some(h),
        Err(_) => None,
    }
}

/// Calls `bcrypt::verify(password, hash)`; its result is named by
/// [`bcrypt_verifies`], an error becoming `None`.
#[verifier::external_body]
fn bcrypt_verify(password: &str, hash: &str) -> (r: Option<bool>)
    ensures
        r == bcrypt_verifies(password@, hash@),
{
    match bcrypt::verify(password, hash) {
        Ok(b) => Some(b),
        Err(_) => None,
    }
}

/// What a hashing attempt gives the caller: the hash, or a server error.
pub fn hashed_password(hash: Option<String>) -> (r: Result<String, Status>)
    ensures
        match hash {
            Some(h) => r matches Ok(x) && x@ == h@,
            None => r == Err::<String, Status>(Status::InternalServerError),
        },
{
    match hash {
        Some(h) => Ok(h),
        None => Err(Status::InternalServerError),
    }
}

/// Hashes a password for storage. A hash it returns is a bcrypt hash of the
/// password with cost 12 that the password verifies against; a failure is a
/// server error.
pub fn created_hash(password: String) -> (r: Result<String, Status>)
    ensures
        r matches Ok(h) ==> is_password_hash(password@, h@),
        r matches Err(s) ==> s == Status::InternalServerError,
{
    let h = bcrypt_hash(password.as_str(), HASH_COST);
    hashed_password(h)
}

// ---------------------------------------------------------------------------
// Session tokens and the clock
// ---------------------------------------------------------------------------

/// A lower-case hexadecimal digit.
pub open spec fn is_lower_hex(c: char) -> bool {
    ||| (0x30 <= (c as u32) && (c as u32) <= 0x39)
    ||| (0x61 <= (c as u32) && (c as u32) <= 0x66)
}

/// The text of a random (version 4) UUID: 36 characters, hyphens at 8, 13, 18
/// and 23, lower-case hexadecimal digits elsewhere, `4` at 14.
pub open spec fn is_uuid_v4_text(t: Seq<char>) -> bool {
    &&& t.len() == 36
    &&& forall|i: int|
        0 <= i < 36 ==> if i == 8 || i == 13 || i == 18 || i == 23 {
            #[trigger] t[i] == '-'
        } else {
            is_lower_hex(t[i])
        }
    &&& t[14] == '4'
}

/// Calls `uuid::Uuid::new_v4().to_string()`: a random UUID in its hyphenated
/// lower-case text form. Claimed: the form only; the value is random.
#[verifier::external_body]
fn new_session_token() -> (r: String)
    ensures
        is_uuid_v4_text(r@),
{
    uuid::Uuid::new_v4().to_string()
}

/// Calls `chrono::Utc::now().timestamp_millis()`: the current time in
/// milliseconds since the epoch. Nothing is claimed of it.
#[verifier::external_body]
fn now_millis() -> (r: i64) {
    chrono::Utc::now().timestamp_millis()
}

// ---------------------------------------------------------------------------
// Login: checking the password and opening a session
// ---------------------------------------------------------------------------

/// How a login attempt with `password` against the stored record `user`
/// ends before a session is written: the user for whom a session is opened,
/// or the status of the refusal.
pub open spec fn authentication_outcome(password: Seq<char>, user: Option<UserView>) -> Result<
    Oid,
    Status,
> {
    match user {
        None => Err(Status::Unauthorized),
        Some(u) => match u.password {
            None => Err(Status::BadRequest),
            Some(h) => match bcrypt_verifies(password, h) {
                None => Err(Status::InternalServerError),
                Some(false) => Err(Status::Unauthorized),
                Some(true) => match u.id {
                    None => Err(Status::PartialContent),
                    Some(id) => Ok(id),
                },
            },
        },
    }
}

/// The session opened for `user_id` with `access`, `token` and `start_date`.
pub open spec fn session_view_for(
    user_id: Oid,
    access: AccessView,
    token: Seq<char>,
    start_date: i64,
) -> SessionView {
    SessionView { id: None, user_id, token, start_date, access }
}

/// A new session document for a user.
pub fn session_for(user_id: Oid, access: &Access, token: String, start_date: i64) -> (s: Session)
    ensures
        s@ == session_view_for(user_id, access@, token@, start_date),
{
    Session { id: None, user_id, token, start_date, access: access.copy_of() }
}

/// Sequence view of an optional user.
pub open spec fn user_view(u: Option<User>) -> Option<UserView> {
    match u {
        Some(x) => Some(x@),
        None => None,
    }
}

/// Checks a login attempt against the record the store found for the user
/// name. On success it returns the session to write: for the user's id, with
/// a fresh random token, the current time and a copy of the user's access.
pub fn authentication(password: String, user_db: Option<User>) -> (r: Result<Session, Status>)
    ensures
        match authentication_outcome(password@, user_view(user_db)) {
            Err(s) => r == Err::<Session, Status>(s),
            Ok(id) => r matches Ok(sess) && sess@.id is None && sess@.user_id == id
                && sess@.access == user_db.unwrap().access@ && is_uuid_v4_text(sess@.token),
        },
{
    let user = match user_db {
        Some(v) => v,
        None => return Err(Status::Unauthorized),
    };
    let password_db = match &user.password {
        Some(v) => v,
        None => return Err(Status::BadRequest),
    };
    let valid = bcrypt_verify(password.as_str(), password_db.as_str());
    match valid {
        None => Err(Status::InternalServerError),
        Some(false) => Err(Status::Unauthorized),
        Some(true) => {
            let user_id = match user.id {
                Some(v) => v,
                None => return Err(Status::PartialContent),
            };
            let token = new_session_token();
            let now = now_millis();
            Ok(session_for(user_id, &user.access, token, now))
        },
    }
}

/// How a session is written: replacing the token and start of the user's
/// existing session, or inserting a new one.
pub struct SessionWrite {
    pub session: Session,
    pub replace: bool,
}

/// After the store was asked whether the user already has a session: a
/// failed lookup is a server error; otherwise the session is written by
/// replacement when one exists and by insertion when none does.
pub fn created_session_found<T, E>(doc_session: Session, existing: Result<Option<T>, E>) -> (r:
    Result<SessionWrite, Status>)
    ensures
        match existing {
            Err(_) => r == Err::<SessionWrite, Status>(Status::InternalServerError),
            Ok(found) => r matches Ok(w) && w.session@ == doc_session@ && w.replace == found
                is Some,
        },
{
    match existing {
        Err(_) => Err(Status::InternalServerError),
        Ok(found) => Ok(SessionWrite { session: doc_session, replace: found.is_some() }),
    }
}

/// After the session was written: its token on success, a server error otherwise.
pub fn created_session_written<E>(write: SessionWrite, written: Result<(), E>) -> (r: Result<
    (String, Access),
    Status,
>)
    ensures
        match written {
            Err(_) => r == Err::<(String, Access), Status>(Status::InternalServerError),
            Ok(_) => r matches Ok(p) && p.0@ == write.session@.token && p.1@
                == write.session@.access,
        },
{
    match written {
        Err(_) => Err(Status::InternalServerError),
        Ok(_) => Ok((write.session.token, write.session.access)),
    }
}

// ---------------------------------------------------------------------------
// Authorization: checking and renewing the session of a request
// ---------------------------------------------------------------------------

/// A session is still valid when less than the expiration time has passed
/// since it was issued.
pub open spec fn session_is_fresh(now: i64, start_date: i64) -> bool {
    now - start_date < EXPIRATION_IN_MILLISECONDS
}

/// Whether a session issued at `start_date` is still valid at `now`. The
/// difference is taken exactly, so no clock value can make it wrap.
pub fn is_fresh(now: i64, start_date: i64) -> (b: bool)
    ensures
        b == session_is_fresh(now, start_date),
{
    (now as i128) - (start_date as i128) < (EXPIRATION_IN_MILLISECONDS as i128)
}

/// The first step of authorization: the token to look the session up by, or
/// `400 Bad Request` when the header is missing or is not visible ASCII.
pub fn authorization_begin(header: TokenHeader) -> (r: Result<String, Status>)
    ensures
        match header@ {
            TokenHeaderView::Present(t) => r matches Ok(x) && x@ == t,
            _ => r == Err::<String, Status>(Status::BadRequest),
        },
{
    match header {
        TokenHeader::Present(t) => Ok(t),
        _ => Err(Status::BadRequest),
    }
}

/// The renewal of a valid session: the user whose session is updated, the
/// new token and start, and the permissions the session carries.
pub struct Renewal {
    pub user_id: Oid,
    pub token: String,
    pub start_date: i64,
    pub access: Access,
}

/// What a check at `now` makes of a session: `401 Unauthorized` once it is
/// no longer fresh, else the user it belongs to and the permissions it carries.
pub open spec fn authorization_verdict(session: SessionView, now: i64) -> Result<
    (Oid, AccessView),
    Status,
> {
    if session_is_fresh(now, session.start_date) {
        Ok((session.user_id, session.access))
    } else {
        Err(Status::Unauthorized)
    }
}

/// Decides on a session found by its token, given the time of the check and
/// the token and start that a renewal would write: a session that is no
/// longer fresh is `401 Unauthorized`; a fresh one is renewed.
pub fn authorization_decide(session: Session, now: i64, new_token: String, new_start: i64) -> (r:
    Result<Renewal, Status>)
    ensures
        match authorization_verdict(session@, now) {
            Err(s) => r == Err::<Renewal, Status>(s),
            Ok((user_id, access)) => r matches Ok(ren) && ren.user_id == user_id && ren.access@
                == access && ren.token@ == new_token@ && ren.start_date == new_start,
        },
{
    if is_fresh(now, session.start_date) {
        let access = session.access.copy_of();
        Ok(Renewal { user_id: session.user_id, token: new_token, start_date: new_start, access })
    } else {
        Err(Status::Unauthorized)
    }
}

/// The second step of authorization, on what the lookup by token returned: a
/// failed lookup is a server error, no session is `401 Unauthorized`, and a
/// session is checked against the current time and, while fresh, renewed with
/// a new random token started now.
pub fn authorization_found<E>(found: Result<Option<Session>, E>) -> (r: Result<Renewal, Status>)
    ensures
        match found {
            Err(_) => r == Err::<Renewal, Status>(Status::InternalServerError),
            Ok(None) => r == Err::<Renewal, Status>(Status::Unauthorized),
            Ok(Some(s)) => r == Err::<Renewal, Status>(Status::Unauthorized) || (r matches Ok(
                ren,
            ) && ren.user_id == s.user_id && ren.access@ == s.access@ && is_uuid_v4_text(
                ren.token@,
            )),
        },
{
    match found {
        Err(_) => Err(Status::InternalServerError),
        Ok(None) => Err(Status::Unauthorized),
        Ok(Some(s)) => {
            let now = now_millis();
            if is_fresh(now, s.start_date) {
                let new_token = new_session_token();
                let new_start = now_millis();
                authorization_decide(s, now, new_token, new_start)
            } else {
                Err(Status::Unauthorized)
            }
        },
    }
}

/// What a successful authorization hands the route: the renewed token and
/// the permissions of the session.
pub struct Granted {
    pub token: String,
    pub access: Access,
}

/// The last step of authorization, once the renewal was written: the renewed
/// token and the session's permissions, or a server error when the write failed.
pub fn authorization_renewed<E>(renewal: Renewal, updated: Result<(), E>) -> (r: Result<
    Granted,
    Status,
>)
    ensures
        match updated {
            Err(_) => r == Err::<Granted, Status>(Status::InternalServerError),
            Ok(_) => r matches Ok(g) && g.token@ == renewal.token@ && g.access@
                == renewal.access@,
        },
{
    match updated {
        Err(_) => Err(Status::InternalServerError),
        Ok(_) => Ok(Granted { token: renewal.token, access: renewal.access }),
    }
}

} // verus!
