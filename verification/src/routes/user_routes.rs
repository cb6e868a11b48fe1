use vstd::prelude::*;
use vstd::string::*;

use crate::error_db::{db_error_reply, erro_db, write_code_of};
use crate::header::{TokenHeader, TokenHeaderView};
use crate::models::user_model::{Access, AccessView, Login, Session, User, UserView};
use crate::oid::{is_object_id_text, object_id_bytes, parse_object_id, Oid};
use crate::reply::{
    bare, json_result, replies, reply_bare, reply_json_result, reply_text, text,
    token_cookie, Body, BodyView, CookieView, Next, Reply, ReplyView, TokenCookie,
};
use crate::routes::{authorized_gate, forbids, is_forbidden, renewed_cookie, Gate};
use crate::session::{
    authentication, authentication_outcome, created_hash, created_session_found,
    created_session_written, is_password_hash, is_uuid_v4_text, user_view, Granted, SessionWrite,
};
use crate::query::{
    profile_producers, profile_producers_query, profile_user, profile_user_query, users_listing,
    users_listing_query, Query,
};
use crate::status::Status;

verus! {

// ---------------------------------------------------------------------------
// POST /login
// ---------------------------------------------------------------------------

/// Once the user collection is open and the store was asked for the user with
/// the login's user name: a failed lookup is `500` with a text; otherwise the
/// password is checked against what was found, a refusal is answered with its
/// status alone, and an accepted login goes on to write the new session.
pub fn login_user_found<E>(req: Login, found: Result<Option<User>, E>) -> (r: Next<Session>)
    ensures
        match found {
            Err(_) => replies(r, text(Status::InternalServerError, None, "Error interno !"@)),
            Ok(u) => match authentication_outcome(req.password@, user_view(u)) {
                Err(s) => replies(r, bare(s)),
                Ok(id) => r matches Next::Go(sess) && sess@.id is None && sess@.user_id == id
                    && sess@.access == u.unwrap().access@ && is_uuid_v4_text(sess@.token),
            },
        },
{
    match found {
        Err(_) => Next::Reply(reply_text(Status::InternalServerError, None, "Error interno !")),
        Ok(v_user) => match authentication(req.password, v_user) {
            Err(s) => Next::Reply(reply_bare(s)),
            Ok(sess) => Next::Go(sess),
        },
    }
}

/// Once the store was asked whether the user already has a session: a failed
/// lookup is `500` alone; otherwise the session is written, replacing the
/// existing one or inserted.
pub fn login_session_found<T, E>(session: Session, existing: Result<Option<T>, E>) -> (r: Next<
    SessionWrite,
>)
    ensures
        match existing {
            Err(_) => replies(r, bare(Status::InternalServerError)),
            Ok(e) => r matches Next::Go(w) && w.session@ == session@ && w.replace == e is Some,
        },
{
    match created_session_found(session, existing) {
        Err(s) => Next::Reply(reply_bare(s)),
        Ok(w) => Next::Go(w),
    }
}

/// The reply to a login whose session write ended with `written`: success
/// sets the `token` cookie (neither secure nor HTTP-only) to the token that
/// was written and sends the session's permissions as JSON; a failed write is
/// `500` alone.
pub fn login_finish<E>(write: SessionWrite, written: Result<(), E>) -> (r: Reply)
    ensures
        match written {
            Err(_) => r@ == bare(Status::InternalServerError),
            Ok(_) => r@ == (ReplyView {
                status: Status::Success,
                cookie: Some(CookieView { token: write.session@.token, secure: false, http_only: false }),
                body: BodyView::JsonAccess(write.session@.access),
            }),
        },
{
    match created_session_written(write, written) {
        Err(s) => reply_bare(s),
        Ok((token, access)) => Reply {
            status: Status::Success,
            cookie: Some(token_cookie(token, false, false)),
            body: Body::JsonAccess(access),
        },
    }
}

// ---------------------------------------------------------------------------
// DELETE /logoff
// ---------------------------------------------------------------------------

/// The first step of a logoff: a missing or malformed `token` header is
/// `400` with a text saying which; otherwise the session with that token is
/// deleted.
pub fn logoff_begin(header: TokenHeader) -> (r: Next<String>)
    ensures
        match header@ {
            TokenHeaderView::Missing => replies(
                r,
                text(Status::BadRequest, None, "Token não encontrado"@),
            ),
            TokenHeaderView::Malformed => replies(
                r,
                text(Status::BadRequest, None, "Conteudo mal formatado"@),
            ),
            TokenHeaderView::Present(t) => r matches Next::Go(x) && x@ == t,
        },
{
    match header {
        TokenHeader::Missing => Next::Reply(
            reply_text(Status::BadRequest, None, "Token não encontrado"),
        ),
        TokenHeader::Malformed => Next::Reply(
            reply_text(Status::BadRequest, None, "Conteudo mal formatado"),
        ),
        TokenHeader::Present(t) => Next::Go(t),
    }
}

/// The reply to a logoff once the deletion ended: `202 Accepted` with the
/// deletion outcome, or `500` with a text.
pub fn logoff_deleted<E>(deleted: Result<(), E>) -> (r: Reply)
    ensures
        match deleted {
            Ok(_) => r@ == json_result(Status::Accepted, None),
            Err(_) => r@ == text(Status::InternalServerError, None, "Error interno"@),
        },
{
    match deleted {
        Ok(_) => reply_json_result(Status::Accepted, None),
        Err(_) => reply_text(Status::InternalServerError, None, "Error interno"),
    }
}

// ---------------------------------------------------------------------------
// GET /user/profile/{id}
// ---------------------------------------------------------------------------

/// The first step of the profile route: a refused authorization is answered
/// with its status; otherwise the route goes on with the renewed cookie.
pub fn get_user_profile_authorized(auth: Result<Granted, Status>) -> (r: Next<TokenCookie>)
    ensures
        match auth {
            Err(s) => replies(r, bare(s)),
            Ok(g) => r matches Next::Go(c) && c@ == renewed_cookie(g.token@, false),
        },
{
    match authorized_gate(auth, false) {
        Err(rep) => Next::Reply(rep),
        Ok(gate) => Next::Go(gate.cookie),
    }
}

/// A profile read about to be sent: the cookie, the user's id and the read
/// of the user.
pub struct ProfileRequest {
    pub cookie: TokenCookie,
    pub id: Oid,
    pub query: Query,
}

/// Once the user collection is open: an `{id}` that is not 24 hexadecimal
/// digits is `400` with the cookie and an empty text; otherwise the user with
/// that id is read, without user name, password or permission flags.
pub fn get_user_profile_id(cookie: TokenCookie, id: &str) -> (r: Next<ProfileRequest>)
    ensures
        !is_object_id_text(id@) ==> replies(r, text(Status::BadRequest, Some(cookie@), ""@)),
        is_object_id_text(id@) ==> (r matches Next::Go(p) && p.cookie@ == cookie@ && p.id.bytes@
            == object_id_bytes(id@) && p.query@ == profile_user_query(p.id)),
{
    match parse_object_id(id) {
        None => Next::Reply(reply_text(Status::BadRequest, Some(cookie), "")),
        Some(oid) => Next::Go(ProfileRequest { cookie, id: oid, query: profile_user(oid) }),
    }
}

/// The profile read in progress: the cookie, the user's id, what the read of
/// the user found, and the read of the user's producers.
pub struct ProfileLookup<T> {
    pub cookie: TokenCookie,
    pub id: Oid,
    pub user: Option<T>,
    pub producers: Query,
}

/// Once the store was asked for the user by id: a failed lookup stops the
/// request; otherwise the route goes on to read the producers whose `users`
/// hold the user, without their users and farms.
pub fn get_user_profile_found<T, E>(req: ProfileRequest, found: Result<Option<T>, E>) -> (r: Next<
    ProfileLookup<T>,
>)
    ensures
        match found {
            Err(_) => r is Abort,
            Ok(u) => r matches Next::Go(l) && l.cookie@ == req.cookie@ && l.id == req.id && l.user
                == u && l.producers@ == profile_producers_query(req.id),
        },
{
    match found {
        Err(_) => Next::Abort(String::from_str("Error")),
        Ok(u) => Next::Go(
            ProfileLookup {
                cookie: req.cookie,
                id: req.id,
                user: u,
                producers: profile_producers(req.id),
            },
        ),
    }
}

/// Once the producers of the user were asked for: a failed query stops the
/// request, and so does a user that was not found; otherwise the producers
/// are collected and the reply sends the user and them with the cookie.
pub fn get_user_profile_producers<T, E>(lookup: ProfileLookup<T>, opened: Result<(), E>) -> (r:
    Next<(Reply, T)>)
    ensures
        opened is Err ==> r is Abort,
        opened is Ok && lookup.user is None ==> r is Abort,
        opened is Ok && lookup.user is Some ==> (r matches Next::Go(p) && p.0@ == json_result(
            Status::Success,
            Some(lookup.cookie@),
        ) && p.1 == lookup.user.unwrap()),
{
    match opened {
        Err(_) => Next::Abort(String::from_str("Error")),
        Ok(_) => match lookup.user {
            None => Next::Abort(String::new()),
            Some(u) => Next::Go((reply_json_result(Status::Success, Some(lookup.cookie)), u)),
        },
    }
}

// ---------------------------------------------------------------------------
// GET /users
// ---------------------------------------------------------------------------

/// The first step of the user listing: a refused authorization is answered
/// with its status; otherwise the route goes on with the renewed cookie and
/// the session's permissions.
pub fn get_all_users_authorized(auth: Result<Granted, Status>) -> (r: Next<Gate>)
    ensures
        match auth {
            Err(s) => replies(r, bare(s)),
            Ok(g) => r matches Next::Go(gate) && gate.cookie@ == renewed_cookie(g.token@, false)
                && gate.access@ == g.access@,
        },
{
    match authorized_gate(auth, false) {
        Err(rep) => Next::Reply(rep),
        Ok(gate) => Next::Go(gate),
    }
}

/// Once the user collection is open: a session whose `c_user` is `false` is
/// `405` with the cookie; otherwise all users are read, without user names
/// and passwords.
pub fn get_all_users_permitted(gate: Gate) -> (r: Next<(TokenCookie, Query)>)
    ensures
        forbids(gate.access@.c_user) ==> replies(
            r,
            text(Status::MethodNotAllowed, Some(gate.cookie@), "Não permitido"@),
        ),
        !forbids(gate.access@.c_user) ==> (r matches Next::Go(p) && p.0@ == gate.cookie@ && p.1@
            == users_listing_query()),
{
    if is_forbidden(gate.access.c_user) {
        Next::Reply(reply_text(Status::MethodNotAllowed, Some(gate.cookie), "Não permitido"))
    } else {
        Next::Go((gate.cookie, users_listing()))
    }
}

// ---------------------------------------------------------------------------
// POST /user
// ---------------------------------------------------------------------------

/// A new user must have a name, a user name, an e-mail, a password and every
/// permission given.
pub open spec fn incomplete_new_user(u: UserView) -> bool {
    ||| u.name.len() == 0
    ||| u.username is None
    ||| u.email.len() == 0
    ||| u.password is None
    ||| u.access.c_user is None
    ||| u.access.c_access is None
    ||| u.access.c_producer is None
    ||| u.access.modules is None
}

/// Whether a new user lacks one of the required values.
pub fn new_user_incomplete(u: &User) -> (b: bool)
    ensures
        b == incomplete_new_user(u@),
{
    u.name.as_str().is_empty() || u.username.is_none() || u.email.as_str().is_empty()
        || u.password.is_none() || u.access.c_user.is_none() || u.access.c_access.is_none()
        || u.access.c_producer.is_none() || u.access.modules.is_none()
}

/// A user creation that passed the checks: the cookie and the request.
pub struct CreateUserRequest {
    pub cookie: TokenCookie,
    pub user: User,
}

/// The first step of the user creation: a refused authorization is answered
/// with its status; an incomplete user is `400` with the cookie; a session
/// whose `c_user` is `false` is `405` with the cookie; otherwise the
/// password is hashed next.
pub fn created_user_authorized(req: User, auth: Result<Granted, Status>) -> (r: Next<
    CreateUserRequest,
>)
    ensures
        auth matches Ok(g) ==> ((req@.name.len() == 0 || req@.username is None
            || req@.email.len() == 0 || req@.password is None || req@.access.c_user is None
            || req@.access.c_access is None || req@.access.c_producer is None
            || req@.access.modules is None) ==> replies(
            r,
            text(Status::BadRequest, Some(renewed_cookie(g.token@, false)), "Campos incoretos"@),
        )),
        match auth {
            Err(s) => replies(r, bare(s)),
            Ok(g) => if incomplete_new_user(req@) {
                replies(
                    r,
                    text(
                        Status::BadRequest,
                        Some(renewed_cookie(g.token@, false)),
                        "Campos incoretos"@,
                    ),
                )
            } else if forbids(g.access@.c_user) {
                replies(
                    r,
                    text(Status::MethodNotAllowed, Some(renewed_cookie(g.token@, false)), ""@),
                )
            } else {
                r matches Next::Go(p) && p.cookie@ == renewed_cookie(g.token@, false) && p.user@
                    == req@
            },
        },
{
    let gate = match authorized_gate(auth, false) {
        Err(rep) => return Next::Reply(rep),
        Ok(gate) => gate,
    };
    if new_user_incomplete(&req) {
        return Next::Reply(reply_text(Status::BadRequest, Some(gate.cookie), "Campos incoretos"));
    }
    if is_forbidden(gate.access.c_user) {
        return Next::Reply(reply_text(Status::MethodNotAllowed, Some(gate.cookie), ""));
    }
    Next::Go(CreateUserRequest { cookie: gate.cookie, user: req })
}

/// The user document to insert: the request with no id and with the hash in
/// place of the password.
pub open spec fn new_user_view(req: UserView, hash: Seq<char>) -> UserView {
    UserView {
        id: None,
        name: req.name,
        username: req.username,
        email: req.email,
        password: Some(hash),
        access: req.access,
    }
}

/// A user creation ready to be inserted: the cookie and the document.
pub struct CreateUserInsert {
    pub cookie: TokenCookie,
    pub doc: User,
}

/// After the password was hashed: a failed hashing is `500` with a text and
/// no cookie; otherwise the user document is inserted next.
pub fn created_user_hashed(cookie: TokenCookie, req: User, hashed: Result<String, Status>) -> (r:
    Next<CreateUserInsert>)
    ensures
        match hashed {
            Err(_) => replies(
                r,
                text(Status::InternalServerError, None, "Error ao gravar senha"@),
            ),
            Ok(h) => r matches Next::Go(ins) && ins.cookie@ == cookie@ && ins.doc@
                == new_user_view(req@, h@) && ins.doc@.id is None && ins.doc@.name == req@.name
                && ins.doc@.username == req@.username && ins.doc@.email == req@.email
                && ins.doc@.password == Some(h@) && ins.doc@.access == req@.access,
        },
{
    match hashed {
        Err(_) => Next::Reply(
            reply_text(Status::InternalServerError, None, "Error ao gravar senha"),
        ),
        Ok(h) => Next::Go(
            CreateUserInsert {
                cookie,
                doc: User {
                    id: None,
                    name: req.name,
                    username: req.username,
                    email: req.email,
                    password: Some(h),
                    access: req.access,
                },
            },
        ),
    }
}

/// The second step of the user creation: a request without a password is
/// `400` with a text and no cookie; otherwise the password is hashed, and the
/// document to insert carries a bcrypt hash that the password verifies
/// against, or the hashing failed and the request is `500` with a text.
pub fn created_user_hash(p: CreateUserRequest) -> (r: Next<CreateUserInsert>)
    ensures
        match p.user@.password {
            None => replies(r, text(Status::BadRequest, None, "Campo incoreto"@)),
            Some(pw) => replies(
                r,
                text(Status::InternalServerError, None, "Error ao gravar senha"@),
            ) || (r matches Next::Go(ins) && ins.cookie@ == p.cookie@ && (ins.doc@.password
                matches Some(h) && is_password_hash(pw, h) && ins.doc@ == new_user_view(
                p.user@,
                h,
            ) && ins.doc@.id is None && ins.doc@.name == p.user@.name && ins.doc@.username
                == p.user@.username && ins.doc@.email == p.user@.email && ins.doc@.access
                == p.user@.access)),
        },
{
    let password = match &p.user.password {
        Some(v) => v.clone(),
        None => return Next::Reply(reply_text(Status::BadRequest, None, "Campo incoreto")),
    };
    let hashed = created_hash(password);
    created_user_hashed(p.cookie, p.user, hashed)
}

/// The reply to a user creation once the insertion ended: success sends back
/// its outcome with the cookie; a failure sends, with the cookie, the status
/// and message that [`erro_db`] gives for the store's error.
pub fn created_user_inserted(cookie: TokenCookie, inserted: Result<(), mongodb::error::Error>) -> (r:
    Reply)
    ensures
        match inserted {
            Ok(_) => r@ == json_result(Status::Success, Some(cookie@)),
            Err(e) => r@ == (ReplyView {
                status: db_error_reply(write_code_of(e)).0,
                cookie: Some(cookie@),
                body: BodyView::JsonText(db_error_reply(write_code_of(e)).1),
            }),
        },
{
    match inserted {
        Ok(_) => reply_json_result(Status::Success, Some(cookie)),
        Err(e) => {
            let (status, message) = erro_db(e);
            Reply { status, cookie: Some(cookie), body: Body::JsonText(message) }
        },
    }
}

// ---------------------------------------------------------------------------
// PATCH /user/access/{id}
// ---------------------------------------------------------------------------

/// New permissions must give every flag and the module list.
pub open spec fn incomplete_access(a: AccessView) -> bool {
    ||| a.c_user is None
    ||| a.c_access is None
    ||| a.c_producer is None
    ||| a.modules is None
}

/// An update of a user's permissions: the cookie, the user and the new permissions.
pub struct AccessUpdate {
    pub cookie: TokenCookie,
    pub id: Oid,
    pub access: Access,
}

/// The first step of the permission update: a refused authorization is
/// answered with its status; incomplete permissions are `400` with a text and
/// no cookie; a session whose `c_access` is `false` is `405` with the cookie;
/// an `{id}` that is not 24 hexadecimal digits stops the request; otherwise
/// the user collection is opened next.
pub fn update_access_user_authorized(req: Access, auth: Result<Granted, Status>, id: &str) -> (r:
    Next<AccessUpdate>)
    ensures
        auth is Ok && (req@.c_user is None || req@.c_access is None || req@.c_producer is None
            || req@.modules is None) ==> replies(
            r,
            text(Status::BadRequest, None, "Requisição mal formatada."@),
        ),
        match auth {
            Err(s) => replies(r, bare(s)),
            Ok(g) => if incomplete_access(req@) {
                replies(r, text(Status::BadRequest, None, "Requisição mal formatada."@))
            } else if forbids(g.access@.c_access) {
                replies(
                    r,
                    text(Status::MethodNotAllowed, Some(renewed_cookie(g.token@, false)), ""@),
                )
            } else if !is_object_id_text(id@) {
                r is Abort
            } else {
                r matches Next::Go(u) && u.cookie@ == renewed_cookie(g.token@, false) && u.id.bytes@
                    == object_id_bytes(id@) && u.access@ == req@
            },
        },
{
    let gate = match authorized_gate(auth, false) {
        Err(rep) => return Next::Reply(rep),
        Ok(gate) => gate,
    };
    if req.c_user.is_none() || req.c_access.is_none() || req.c_producer.is_none()
        || req.modules.is_none() {
        return Next::Reply(
            reply_text(Status::BadRequest, None, "Requisição mal formatada."),
        );
    }
    if is_forbidden(gate.access.c_access) {
        return Next::Reply(reply_text(Status::MethodNotAllowed, Some(gate.cookie), ""));
    }
    match parse_object_id(id) {
        None => Next::Abort(String::from_str("invalid object id")),
        Some(oid) => Next::Go(AccessUpdate { cookie: gate.cookie, id: oid, access: req }),
    }
}

// ---------------------------------------------------------------------------
// PATCH /user/profile/{id}
// ---------------------------------------------------------------------------

/// A profile update must give a name, a user name and an e-mail.
pub open spec fn incomplete_profile(u: UserView) -> bool {
    ||| u.name.len() == 0
    ||| u.username is None
    ||| u.email.len() == 0
}

/// An update of a user's profile: the cookie, the user and the new values.
pub struct ProfileUpdate {
    pub cookie: TokenCookie,
    pub id: Oid,
    pub name: String,
    pub username: Option<String>,
    pub email: String,
}

/// The first step of the profile update; its cookie is marked secure. A
/// refused authorization is answered with its status; an incomplete profile
/// is `400` with a text and no cookie; a session whose `c_user` is `false` is
/// `405` with the cookie; an `{id}` that is not 24 hexadecimal digits stops
/// the request; otherwise the user collection is opened next.
pub fn update_profile_user_authorized(req: User, auth: Result<Granted, Status>, id: &str) -> (r:
    Next<ProfileUpdate>)
    ensures
        auth is Ok && (req@.name.len() == 0 || req@.username is None || req@.email.len() == 0)
            ==> replies(r, text(Status::BadRequest, None, "Requisição mal formatada."@)),
        match auth {
            Err(s) => replies(r, bare(s)),
            Ok(g) => if incomplete_profile(req@) {
                replies(r, text(Status::BadRequest, None, "Requisição mal formatada."@))
            } else if forbids(g.access@.c_user) {
                replies(
                    r,
                    text(Status::MethodNotAllowed, Some(renewed_cookie(g.token@, true)), ""@),
                )
            } else if !is_object_id_text(id@) {
                r is Abort
            } else {
                r matches Next::Go(u) && u.cookie@ == renewed_cookie(g.token@, true) && u.id.bytes@
                    == object_id_bytes(id@) && u.name@ == req@.name && u.username.deep_view()
                    == req@.username && u.email@ == req@.email
            },
        },
{
    let gate = match authorized_gate(auth, true) {
        Err(rep) => return Next::Reply(rep),
        Ok(gate) => gate,
    };
    if req.name.as_str().is_empty() || req.username.is_none() || req.email.as_str().is_empty() {
        return Next::Reply(
            reply_text(Status::BadRequest, None, "Requisição mal formatada."),
        );
    }
    if is_forbidden(gate.access.c_user) {
        return Next::Reply(reply_text(Status::MethodNotAllowed, Some(gate.cookie), ""));
    }
    match parse_object_id(id) {
        None => Next::Abort(String::from_str("invalid object id")),
        Some(oid) => Next::Go(
            ProfileUpdate {
                cookie: gate.cookie,
                id: oid,
                name: req.name,
                username: req.username,
                email: req.email,
            },
        ),
    }
}

} // verus!
