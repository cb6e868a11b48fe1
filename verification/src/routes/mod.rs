//! The routes of the service, each written as the steps between its pieces
//! of outside work, and what the steps of several routes share.

pub mod farms_routes;
pub mod producer_routes;
pub mod user_routes;

use vstd::prelude::*;
use vstd::string::*;

use crate::models::user_model::Access;
use crate::oid::{is_object_id_text, object_id_bytes, parse_object_id, Oid};
use crate::reply::{
    bare, json_result, reply_bare, reply_json_result, reply_text, text, token_cookie, CookieView,
    Next, Reply, TokenCookie,
};
use crate::session::Granted;
use crate::status::Status;

verus! {

/// A permission flag forbids only when it is explicitly `false`; an absent
/// flag forbids nothing.
pub open spec fn forbids(flag: Option<bool>) -> bool {
    flag == Some(false)
}

/// Whether a permission flag forbids.
pub fn is_forbidden(flag: Option<bool>) -> (b: bool)
    ensures
        b == forbids(flag),
{
    match flag {
        Some(v) => !v,
        None => false,
    }
}

/// What a route holds once the request is authorized: the cookie that hands
/// the renewed token back, and the permissions of the session.
pub struct Gate {
    pub cookie: TokenCookie,
    pub access: Access,
}

/// The cookie with which a route hands the renewed token back.
pub open spec fn renewed_cookie(token: Seq<char>, secure: bool) -> CookieView {
    CookieView { token, secure, http_only: true }
}

/// The first step of every route behind a session: a refused authorization
/// is answered with its status alone; a granted one gives the route the
/// cookie with the renewed token (HTTP-only, `secure` as the route sets it)
/// and the session's permissions.
pub fn authorized_gate(auth: Result<Granted, Status>, secure: bool) -> (r: Result<Gate, Reply>)
    ensures
        match auth {
            Err(s) => r matches Err(rep) && rep@ == bare(s),
            Ok(g) => r matches Ok(gate) && gate.cookie@ == renewed_cookie(g.token@, secure)
                && gate.access@ == g.access@,
        },
{
    match auth {
        Err(s) => Err(reply_bare(s)),
        Ok(g) => Ok(Gate { cookie: token_cookie(g.token, secure, true), access: g.access }),
    }
}

/// After the user collection was opened (with its unique indexes): a failure
/// is answered with its status alone; otherwise the route goes on.
pub fn store_opened<T>(pending: T, opened: Result<(), Status>) -> (r: Next<T>)
    ensures
        match opened {
            Err(s) => r matches Next::Reply(rep) && rep@ == bare(s),
            Ok(_) => r == Next::<T>::Go(pending),
        },
{
    match opened {
        Err(s) => Next::Reply(reply_bare(s)),
        Ok(_) => Next::Go(pending),
    }
}

/// After a listing query was sent: a failure stops the request (the route
/// expects the query to succeed); otherwise the documents are collected and
/// the reply sends them back with the cookie.
pub fn listing_opened<E>(cookie: TokenCookie, opened: Result<(), E>) -> (r: Next<Reply>)
    ensures
        match opened {
            Err(_) => r is Abort,
            Ok(_) => r matches Next::Go(rep) && rep@ == json_result(
                Status::Success,
                Some(cookie@),
            ),
        },
{
    match opened {
        Err(_) => Next::Abort(String::from_str("Error")),
        Ok(_) => Next::Go(reply_json_result(Status::Success, Some(cookie))),
    }
}

/// Takes one answer of a cursor into the collected list: a document is
/// appended and the collection goes on; the end of the cursor or a failure
/// ends it, leaving the list as it is.
pub fn collect_next<T, E>(acc: &mut Vec<T>, next: Result<Option<T>, E>) -> (more: bool)
    ensures
        more <==> next matches Ok(Some(_)),
        match next {
            Ok(Some(x)) => final(acc)@ == old(acc)@.push(x),
            _ => final(acc)@ == old(acc)@,
        },
{
    match next {
        Ok(Some(x)) => {
            acc.push(x);
            true
        },
        _ => false,
    }
}

/// After an update was sent: success sends back its outcome with the
/// cookie; a failure is `400 Bad Request` with the cookie.
pub fn update_outcome<E>(cookie: TokenCookie, updated: Result<(), E>) -> (r: Reply)
    ensures
        match updated {
            Ok(_) => r@ == json_result(Status::Success, Some(cookie@)),
            Err(_) => r@ == text(Status::BadRequest, Some(cookie@), "Errro"@),
        },
{
    match updated {
        Ok(_) => reply_json_result(Status::Success, Some(cookie)),
        Err(_) => reply_text(Status::BadRequest, Some(cookie), "Errro"),
    }
}

/// After an insertion of a producer or a farm was sent: success sends back
/// its outcome with the cookie; a failure is `500 Internal Server Error`
/// with an empty text and no cookie.
pub fn insert_outcome<E>(cookie: TokenCookie, inserted: Result<(), E>) -> (r: Reply)
    ensures
        match inserted {
            Ok(_) => r@ == json_result(Status::Success, Some(cookie@)),
            Err(_) => r@ == text(Status::InternalServerError, None, ""@),
        },
{
    match inserted {
        Ok(_) => reply_json_result(Status::Success, Some(cookie)),
        Err(_) => reply_text(Status::InternalServerError, None, ""),
    }
}

/// Reads the `{id}` of a route that expects it to be well formed: text that
/// is not 24 hexadecimal digits stops the request.
pub fn required_id(id: &str) -> (r: Next<Oid>)
    ensures
        is_object_id_text(id@) ==> (r matches Next::Go(o) && o.bytes@ == object_id_bytes(id@)),
        !is_object_id_text(id@) ==> r is Abort,
{
    match parse_object_id(id) {
        Some(o) => Next::Go(o),
        None => Next::Abort(String::from_str("invalid object id")),
    }
}

} // verus!
