use vstd::prelude::*;

use crate::error_db::db_error_reply;
use crate::header::{token_header_of, visible_ascii, TokenHeaderView};
use crate::models::property_model::FarmsView;
use crate::models::user_model::{AccessView, SessionView, UserView};
use crate::oid::Oid;
use crate::query::{
    hides, producer_lookup_query, profile_producers_query, profile_user_query, users_listing_query,
    whole_listing_query, Filter,
};
use crate::reply::{bare, json_result, text, BodyView, CookieView};
use crate::routes::farms_routes::new_farm_view;
use crate::routes::producer_routes::new_producer_view;
use crate::routes::user_routes::{
    incomplete_access, incomplete_new_user, incomplete_profile, new_user_view,
};
use crate::routes::{forbids, renewed_cookie};
use crate::session::{
    authentication_outcome, authorization_verdict, bcrypt_verifies, is_password_hash,
    session_is_fresh, session_view_for, EXPIRATION_IN_MILLISECONDS,
};
use crate::status::{status_code, Status};
use crate::store::{
    has_session, holds_token, one_session_per_user, renew_in_store, set_access_in_store,
    store_after_write, token_unique,
};

verus! {

/// A user created with a password can log in with that password: the
/// document that user creation inserts holds a hash of the password, and once
/// the store has given it an id, checking the same password against it opens
/// a session for that id.
pub proof fn lemma_created_user_can_log_in(req: UserView, password: Seq<char>, hash: Seq<char>, id: Oid)
    requires
        req.password == Some(password),
        is_password_hash(password, hash),
    ensures
        authentication_outcome(password, Some(UserView { id: Some(id), ..new_user_view(req, hash) }))
            == Ok::<Oid, Status>(id),
{
}

/// A password that does not match the stored hash never opens a session: the
/// login is refused with `401 Unauthorized`.
pub proof fn lemma_wrong_password_refused(password: Seq<char>, user: UserView, hash: Seq<char>)
    requires
        user.password == Some(hash),
        bcrypt_verifies(password, hash) == Some(false),
    ensures
        authentication_outcome(password, Some(user)) == Err::<Oid, Status>(Status::Unauthorized),
{
}

/// A session that has expired stays expired: if it is refused at some time,
/// it is refused at every later time.
pub proof fn lemma_expiry_is_final(start_date: i64, now: i64, later: i64)
    requires
        !session_is_fresh(now, start_date),
        now <= later,
    ensures
        !session_is_fresh(later, start_date),
{
}

/// A session is valid for exactly the expiration time after it was issued:
/// accepted until then, refused from then on.
pub proof fn lemma_session_lifetime(start_date: i64, now: i64)
    ensures
        start_date <= now < start_date + EXPIRATION_IN_MILLISECONDS ==> session_is_fresh(
            now,
            start_date,
        ),
        now >= start_date + EXPIRATION_IN_MILLISECONDS ==> !session_is_fresh(now, start_date),
{
}

/// Only an explicit `false` withholds a permission: an absent flag and a
/// `true` flag both allow.
pub proof fn lemma_only_false_forbids(flag: Option<bool>)
    ensures
        forbids(flag) <==> flag == Some(false),
        !forbids(None),
        !forbids(Some(true)),
{
}

/// A login's session write keeps at most one session per user: the write
/// replaces the user's session when there is one (the route asks the store
/// first) and inserts one otherwise; afterwards the user's session holds the
/// new token and start.
pub proof fn lemma_session_write_keeps_one_per_user(s: Seq<SessionView>, session: SessionView)
    requires
        one_session_per_user(s),
    ensures
        ({
            let after = store_after_write(s, session, has_session(s, session.user_id));
            &&& one_session_per_user(after)
            &&& exists|i: int|
                0 <= i < after.len() && #[trigger] after[i].user_id == session.user_id
                    && after[i].token == session.token && after[i].start_date
                    == session.start_date
        }),
{
    let s2 = store_after_write(s, session, has_session(s, session.user_id));
    if has_session(s, session.user_id) {
        let k = choose|i: int| 0 <= i < s.len() && #[trigger] s[i].user_id == session.user_id;
        assert(s2[k].user_id == session.user_id);
        assert forall|i: int, j: int|
            0 <= i < s2.len() && 0 <= j < s2.len() && #[trigger] s2[i].user_id
                == #[trigger] s2[j].user_id implies i == j by {
            assert(s2[i].user_id == s[i].user_id);
            assert(s2[j].user_id == s[j].user_id);
        }
    } else {
        assert(s2[s.len() as int] == session);
        assert forall|i: int, j: int|
            0 <= i < s2.len() && 0 <= j < s2.len() && #[trigger] s2[i].user_id
                == #[trigger] s2[j].user_id implies i == j by {
            if i < s.len() && j < s.len() {
                assert(s2[i] == s[i]);
                assert(s2[j] == s[j]);
            } else if i < s.len() {
                assert(s2[i] == s[i]);
                assert(s[i].user_id == session.user_id);
            } else if j < s.len() {
                assert(s2[j] == s[j]);
                assert(s[j].user_id == session.user_id);
            }
        }
    }
}

/// A login token authorizes until it expires: after the first login of a
/// user (no session of theirs before, a token no session holds), the token
/// is held by exactly one session, and a check of it while fresh grants the
/// user with the permissions written at login.
pub proof fn lemma_login_token_authorizes(s: Seq<SessionView>, session: SessionView, now: i64)
    requires
        one_session_per_user(s),
        !has_session(s, session.user_id),
        !holds_token(s, session.token),
        session_is_fresh(now, session.start_date),
    ensures
        store_after_write(s, session, false) == s.push(session),
        holds_token(s.push(session), session.token),
        token_unique(s.push(session), session.token),
        forall|i: int|
            0 <= i < s.push(session).len() && #[trigger] s.push(session)[i].token == session.token
                ==> authorization_verdict(s.push(session)[i], now) == Ok::<(Oid, AccessView), Status>(
                (session.user_id, session.access),
            ),
{
    let s2 = s.push(session);
    assert(s2[s.len() as int] == session);
    assert forall|i: int| 0 <= i < s2.len() && #[trigger] s2[i].token == session.token implies i
        == s.len() by {
        if i < s.len() {
            assert(s2[i] == s[i]);
        }
    }
}

/// Every check rotates the token: once a session found by its token is
/// renewed with a new token, the old token is held by no session, the new one
/// by exactly that session, and a check of the new token while fresh grants
/// the same user with the same permissions.
pub proof fn lemma_token_rotation(
    s: Seq<SessionView>,
    i: int,
    now: i64,
    new_token: Seq<char>,
    new_start: i64,
    later: i64,
)
    requires
        one_session_per_user(s),
        0 <= i < s.len(),
        token_unique(s, s[i].token),
        authorization_verdict(s[i], now) is Ok,
        new_token != s[i].token,
        !holds_token(s, new_token),
        session_is_fresh(later, new_start),
    ensures
        !holds_token(renew_in_store(s, s[i].user_id, new_token, new_start), s[i].token),
        holds_token(renew_in_store(s, s[i].user_id, new_token, new_start), new_token),
        token_unique(renew_in_store(s, s[i].user_id, new_token, new_start), new_token),
        forall|j: int|
            0 <= j < s.len() && #[trigger] renew_in_store(s, s[i].user_id, new_token, new_start)[j].token
                == new_token ==> authorization_verdict(
                renew_in_store(s, s[i].user_id, new_token, new_start)[j],
                later,
            ) == Ok::<(Oid, AccessView), Status>((s[i].user_id, s[i].access)),
{
    let uid = s[i].user_id;
    let old = s[i].token;
    let s2 = renew_in_store(s, uid, new_token, new_start);
    assert(s2[i].token == new_token);
    assert forall|j: int| 0 <= j < s2.len() && #[trigger] s2[j].token == new_token implies j == i by {
        if s[j].user_id != uid {
            assert(s2[j] == s[j]);
            assert(holds_token(s, new_token));
        } else {
            assert(s[j].user_id == s[i].user_id);
        }
    }
    assert forall|j: int| 0 <= j < s2.len() implies #[trigger] s2[j].token != old by {
        if s[j].user_id != uid {
            assert(s2[j] == s[j]);
            if s[j].token == old {
                assert(j == i);
            }
        }
    }
}

/// Setting a user's permissions is idempotent: a second identical update
/// leaves the users as the first one did.
pub proof fn lemma_access_update_idempotent(u: Seq<UserView>, id: Oid, access: AccessView)
    ensures
        set_access_in_store(set_access_in_store(u, id, access), id, access) == set_access_in_store(
            u,
            id,
            access,
        ),
{
    assert(set_access_in_store(set_access_in_store(u, id, access), id, access) =~= set_access_in_store(
        u,
        id,
        access,
    ));
}

/// A profile reply never carries a password or a user name: the read of the
/// user leaves both out, and the read of the producers leaves out their users
/// and farms; the user listing leaves out user names and passwords too.
pub proof fn lemma_profile_hides_secrets(id: Oid)
    ensures
        hides(profile_user_query(id), "password"@),
        hides(profile_user_query(id), "username"@),
        hides(profile_producers_query(id), "users"@),
        hides(profile_producers_query(id), "farms"@),
        hides(users_listing_query(), "password"@),
        hides(users_listing_query(), "username"@),
{
    assert(profile_user_query(id).hidden[1] == "password"@);
    assert(profile_user_query(id).hidden[0] == "username"@);
    assert(profile_producers_query(id).hidden[0] == "users"@);
    assert(profile_producers_query(id).hidden[1] == "farms"@);
    assert(users_listing_query().hidden[1] == "password"@);
    assert(users_listing_query().hidden[0] == "username"@);
}

/// The user document that user creation inserts keeps the request's name,
/// user name, e-mail and permissions, holds the hash as its password, and has
/// no id of its own (the store assigns it).
pub proof fn lemma_new_user_document(req: UserView, hash: Seq<char>)
    ensures
        new_user_view(req, hash).id is None,
        new_user_view(req, hash).name == req.name,
        new_user_view(req, hash).username == req.username,
        new_user_view(req, hash).email == req.email,
        new_user_view(req, hash).password == Some(hash),
        new_user_view(req, hash).access == req.access,
{
}

/// The farm document that farm creation inserts keeps the request's name and
/// fields, and has no id of its own.
pub proof fn lemma_new_farm_document(req: FarmsView)
    ensures
        new_farm_view(req).id is None,
        new_farm_view(req).name == req.name,
        new_farm_view(req).fields == req.fields,
{
}

/// The producer document that producer creation inserts keeps the request's
/// name, and starts with no id, no users and no farms.
pub proof fn lemma_new_producer_document(name: Seq<char>)
    ensures
        new_producer_view(name).id is None,
        new_producer_view(name).name == name,
        new_producer_view(name).users is None,
        new_producer_view(name).farms is None,
{
}

/// A new user is refused as incomplete exactly when a name, user name,
/// e-mail, password, one of the three permission flags or the module list is
/// missing (an empty text counts as missing).
pub proof fn lemma_new_user_requirements(u: UserView)
    ensures
        u.name.len() == 0 ==> incomplete_new_user(u),
        u.username is None ==> incomplete_new_user(u),
        u.email.len() == 0 ==> incomplete_new_user(u),
        u.password is None ==> incomplete_new_user(u),
        u.access.c_user is None ==> incomplete_new_user(u),
        u.access.c_access is None ==> incomplete_new_user(u),
        u.access.c_producer is None ==> incomplete_new_user(u),
        u.access.modules is None ==> incomplete_new_user(u),
        u.name.len() > 0 && u.username is Some && u.email.len() > 0 && u.password is Some
            && u.access.c_user is Some && u.access.c_access is Some && u.access.c_producer is Some
            && u.access.modules is Some ==> !incomplete_new_user(u),
{
}

/// New permissions are refused as incomplete exactly when a flag or the
/// module list is missing.
pub proof fn lemma_access_requirements(a: AccessView)
    ensures
        a.c_user is None ==> incomplete_access(a),
        a.c_access is None ==> incomplete_access(a),
        a.c_producer is None ==> incomplete_access(a),
        a.modules is None ==> incomplete_access(a),
        a.c_user is Some && a.c_access is Some && a.c_producer is Some && a.modules is Some
            ==> !incomplete_access(a),
{
}

/// A profile update is refused as incomplete exactly when the name is empty,
/// the user name is missing or the e-mail is empty.
pub proof fn lemma_profile_requirements(u: UserView)
    ensures
        u.name.len() == 0 ==> incomplete_profile(u),
        u.username is None ==> incomplete_profile(u),
        u.email.len() == 0 ==> incomplete_profile(u),
        u.name.len() > 0 && u.username is Some && u.email.len() > 0 ==> !incomplete_profile(u),
{
}

/// How a login is refused: an unknown user name and a wrong password are
/// `401`, a record without a password is `400`, a stored hash that bcrypt
/// cannot read is `500`, and a matching record without an id is `206`; a
/// matching record with an id opens a session for that id.
pub proof fn lemma_authentication_outcomes(password: Seq<char>, u: UserView)
    ensures
        authentication_outcome(password, None) == Err::<Oid, Status>(Status::Unauthorized),
        u.password is None ==> authentication_outcome(password, Some(u)) == Err::<Oid, Status>(
            Status::BadRequest,
        ),
        u.password matches Some(h) && bcrypt_verifies(password, h) is None ==> authentication_outcome(
            password,
            Some(u),
        ) == Err::<Oid, Status>(Status::InternalServerError),
        u.password matches Some(h) && bcrypt_verifies(password, h) == Some(true) && u.id is None
            ==> authentication_outcome(password, Some(u)) == Err::<Oid, Status>(
            Status::PartialContent,
        ),
        u.password matches Some(h) && bcrypt_verifies(password, h) == Some(true) && u.id is Some
            ==> authentication_outcome(password, Some(u)) == Ok::<Oid, Status>(u.id.unwrap()),
{
}

/// A check grants a session, with its user and permissions, exactly while
/// less than 15 days (1 296 000 000 ms) have passed since its start, and
/// refuses it with `401` from then on.
pub proof fn lemma_authorization_verdict(session: SessionView, now: i64)
    ensures
        now - session.start_date < 1296000000 ==> authorization_verdict(session, now) == Ok::<
            (Oid, AccessView),
            Status,
        >((session.user_id, session.access)),
        now - session.start_date >= 1296000000 ==> authorization_verdict(session, now) == Err::<
            (Oid, AccessView),
            Status,
        >(Status::Unauthorized),
{
}

/// A failed write is answered `409 Conflict` "Dados existentes" for a
/// duplicate key (code 11000), `500` "Code de erro desconhecido" for any other
/// write error, and `500` "Erro desconheciddo" for every other failure.
pub proof fn lemma_db_error_replies(code: Option<i32>)
    ensures
        code == Some(11000i32) ==> db_error_reply(code) == (Status::Conflict, "Dados existentes"@),
        code matches Some(c) && c != 11000 ==> db_error_reply(code) == (
            Status::InternalServerError,
            "Code de erro desconhecido"@,
        ),
        code is None ==> db_error_reply(code) == (Status::InternalServerError, "Erro desconheciddo"@),
{
}

/// The reads select what the routes name: the profile reads the user by its
/// id and the producers whose users hold it, the producer lookup reads the
/// producer by its id, and the listings read everything, the producer and
/// farm listings hiding nothing.
pub proof fn lemma_queries_select(id: Oid)
    ensures
        profile_user_query(id).filter == Filter::ById(id),
        profile_producers_query(id).filter == Filter::HasUser(id),
        producer_lookup_query(id).filter == Filter::ById(id),
        hides(producer_lookup_query(id), "farms"@),
        users_listing_query().filter == Filter::Everything,
        whole_listing_query().filter == Filter::Everything,
        whole_listing_query().hidden.len() == 0,
{
    assert(producer_lookup_query(id).hidden[0] == "farms"@);
}

/// The `token` header is read as text exactly when every byte is a visible
/// ASCII character, a space or a tab, and the text then has one character per
/// byte, with the byte's code.
pub proof fn lemma_token_header_text(raw: Seq<u8>)
    ensures
        token_header_of(None) == TokenHeaderView::Missing,
        (forall|i: int| 0 <= i < raw.len() ==> (32 <= #[trigger] raw[i] < 127 || raw[i] == 9))
            ==> (token_header_of(Some(raw)) matches TokenHeaderView::Present(t) && t.len()
            == raw.len() && forall|i: int| 0 <= i < raw.len() ==> (#[trigger] t[i]) as u32
            == raw[i] as u32),
        (exists|i: int| 0 <= i < raw.len() && !(32 <= #[trigger] raw[i] < 127 || raw[i] == 9))
            ==> token_header_of(Some(raw)) == TokenHeaderView::Malformed,
{
    if exists|i: int| 0 <= i < raw.len() && !(32 <= #[trigger] raw[i] < 127 || raw[i] == 9) {
        let i = choose|i: int| 0 <= i < raw.len() && !(32 <= #[trigger] raw[i] < 127 || raw[i] == 9);
        assert(!visible_ascii(raw[i]));
    }
}

/// The cookie with which a route hands the renewed token back carries that
/// token and is HTTP-only; whether it is secure is the route's choice.
pub proof fn lemma_renewed_cookie(token: Seq<char>, secure: bool)
    ensures
        renewed_cookie(token, secure).token == token,
        renewed_cookie(token, secure).http_only,
        renewed_cookie(token, secure).secure == secure,
{
}

/// The reply shapes: a bare reply has no cookie and no body, a text reply
/// carries its text, and a result reply sends what the store returned; each
/// keeps the status and cookie it is given.
pub proof fn lemma_reply_shapes(s: Status, c: Option<CookieView>, t: Seq<char>)
    ensures
        bare(s).status == s && bare(s).cookie is None && bare(s).body == BodyView::Empty,
        text(s, c, t).status == s && text(s, c, t).cookie == c && text(s, c, t).body
            == BodyView::Text(t),
        json_result(s, c).status == s && json_result(s, c).cookie == c && json_result(s, c).body
            == BodyView::JsonResult,
{
}

/// A session opened at login belongs to the user, holds the token, the start
/// and the permissions it is given, and has no id of its own.
pub proof fn lemma_opened_session(user_id: Oid, access: AccessView, token: Seq<char>, start: i64)
    ensures
        session_view_for(user_id, access, token, start).id is None,
        session_view_for(user_id, access, token, start).user_id == user_id,
        session_view_for(user_id, access, token, start).token == token,
        session_view_for(user_id, access, token, start).start_date == start,
        session_view_for(user_id, access, token, start).access == access,
{
}

/// Renewing a user's session gives it the new token and start and keeps its
/// user and permissions; every other session stays as it was.
pub proof fn lemma_renewal_write(
    s: Seq<SessionView>,
    user_id: Oid,
    token: Seq<char>,
    start: i64,
    i: int,
)
    requires
        0 <= i < s.len(),
    ensures
        renew_in_store(s, user_id, token, start).len() == s.len(),
        s[i].user_id == user_id ==> renew_in_store(s, user_id, token, start)[i].token == token
            && renew_in_store(s, user_id, token, start)[i].start_date == start
            && renew_in_store(s, user_id, token, start)[i].user_id == user_id
            && renew_in_store(s, user_id, token, start)[i].access == s[i].access,
        s[i].user_id != user_id ==> renew_in_store(s, user_id, token, start)[i] == s[i],
{
}

/// Setting a user's permissions gives that user exactly the new permissions
/// and leaves their other fields and every other user as they were.
pub proof fn lemma_access_write(u: Seq<UserView>, id: Oid, access: AccessView, i: int)
    requires
        0 <= i < u.len(),
    ensures
        set_access_in_store(u, id, access).len() == u.len(),
        u[i].id == Some(id) ==> set_access_in_store(u, id, access)[i] == (UserView {
            access,
            ..u[i]
        }),
        u[i].id != Some(id) ==> set_access_in_store(u, id, access)[i] == u[i],
{
}

/// Every status has its own HTTP code.
pub proof fn lemma_status_codes_distinct(a: Status, b: Status)
    ensures
        status_code(a) == status_code(b) ==> a == b,
        status_code(Status::Success) == 200,
        status_code(Status::BadRequest) == 400,
        status_code(Status::Unauthorized) == 401,
        status_code(Status::MethodNotAllowed) == 405,
        status_code(Status::Conflict) == 409,
        status_code(Status::InternalServerError) == 500,
{
}

} // verus!
