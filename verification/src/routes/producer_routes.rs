use vstd::prelude::*;
use vstd::string::*;

use crate::models::property_model::{optional_ids, Producer, ProducerView};
use crate::oid::{is_object_id_text, object_id_bytes, parse_object_id, Oid};
use crate::reply::{
    bare, json_result, replies, reply_json_result, reply_text, text, Next, Reply, TokenCookie,
};
use crate::routes::{authorized_gate, forbids, is_forbidden, renewed_cookie};
use crate::session::Granted;
use crate::query::{
    producer_lookup, producer_lookup_query, whole_listing, whole_listing_query, Filter, Query,
};
use crate::status::Status;

verus! {

// ---------------------------------------------------------------------------
// POST /producer
// ---------------------------------------------------------------------------

/// A producer creation ready to be inserted: the cookie and the document.
pub struct ProducerInsert {
    pub cookie: TokenCookie,
    pub doc: Producer,
}

/// The producer document to insert: the request's name, no id, no users and
/// no farms.
pub open spec fn new_producer_view(name: Seq<char>) -> ProducerView {
    ProducerView { id: None, name, users: None, farms: None }
}

/// The first step of the producer creation: a refused authorization is
/// answered with its status; a producer without a name is `400` with the
/// cookie; a session whose `c_producer` is `false` is `405` with the cookie;
/// otherwise the new producer is inserted next.
pub fn created_producer_authorized(req: Producer, auth: Result<Granted, Status>) -> (r: Next<
    ProducerInsert,
>)
    ensures
        match auth {
            Err(s) => replies(r, bare(s)),
            Ok(g) => if req@.name.len() == 0 {
                replies(
                    r,
                    text(
                        Status::BadRequest,
                        Some(renewed_cookie(g.token@, false)),
                        "Campos incoretos"@,
                    ),
                )
            } else if forbids(g.access@.c_producer) {
                replies(
                    r,
                    text(Status::MethodNotAllowed, Some(renewed_cookie(g.token@, false)), ""@),
                )
            } else {
                r matches Next::Go(p) && p.cookie@ == renewed_cookie(g.token@, false) && p.doc@
                    == new_producer_view(req@.name) && p.doc@.id is None && p.doc@.name
                    == req@.name && p.doc@.users is None && p.doc@.farms is None
            },
        },
{
    let gate = match authorized_gate(auth, false) {
        Err(rep) => return Next::Reply(rep),
        Ok(gate) => gate,
    };
    if req.name.as_str().is_empty() {
        return Next::Reply(reply_text(Status::BadRequest, Some(gate.cookie), "Campos incoretos"));
    }
    if is_forbidden(gate.access.c_producer) {
        return Next::Reply(reply_text(Status::MethodNotAllowed, Some(gate.cookie), ""));
    }
    Next::Go(
        ProducerInsert {
            cookie: gate.cookie,
            doc: Producer { id: None, name: req.name, users: None, farms: None },
        },
    )
}

// ---------------------------------------------------------------------------
// GET /producers
// ---------------------------------------------------------------------------

/// The first step of the producer listing: a refused authorization is
/// answered with its status; a session whose `c_producer` is `false` is `405`
/// with the cookie; otherwise every producer is read, whole.
pub fn get_all_producer_authorized(auth: Result<Granted, Status>) -> (r: Next<(TokenCookie, Query)>)
    ensures
        match auth {
            Err(s) => replies(r, bare(s)),
            Ok(g) => if forbids(g.access@.c_producer) {
                replies(
                    r,
                    text(
                        Status::MethodNotAllowed,
                        Some(renewed_cookie(g.token@, false)),
                        "Não permitido"@,
                    ),
                )
            } else {
                r matches Next::Go(p) && p.0@ == renewed_cookie(g.token@, false) && p.1@
                    == whole_listing_query()
            },
        },
{
    let gate = match authorized_gate(auth, false) {
        Err(rep) => return Next::Reply(rep),
        Ok(gate) => gate,
    };
    if is_forbidden(gate.access.c_producer) {
        return Next::Reply(
            reply_text(Status::MethodNotAllowed, Some(gate.cookie), "Não permitido"),
        );
    }
    Next::Go((gate.cookie, whole_listing()))
}

// ---------------------------------------------------------------------------
// GET /producer/{id}
// ---------------------------------------------------------------------------

/// The first step of the producer lookup: a refused authorization is answered
/// with its status; an `{id}` that is not 24 hexadecimal digits is `400` with
/// the cookie and an empty text; otherwise the producer with that id is read
/// next, without its farms.
pub fn get_producer_authorized(auth: Result<Granted, Status>, id: &str) -> (r: Next<
    (TokenCookie, Query),
>)
    ensures
        match auth {
            Err(s) => replies(r, bare(s)),
            Ok(g) => if !is_object_id_text(id@) {
                replies(
                    r,
                    text(Status::BadRequest, Some(renewed_cookie(g.token@, false)), ""@),
                )
            } else {
                r matches Next::Go(p) && p.0@ == renewed_cookie(g.token@, false) && (p.1@.filter
                    matches Filter::ById(o) && o.bytes@ == object_id_bytes(id@) && p.1@
                    == producer_lookup_query(o))
            },
        },
{
    let gate = match authorized_gate(auth, false) {
        Err(rep) => return Next::Reply(rep),
        Ok(gate) => gate,
    };
    match parse_object_id(id) {
        None => Next::Reply(reply_text(Status::BadRequest, Some(gate.cookie), "")),
        Some(oid) => Next::Go((gate.cookie, producer_lookup(oid))),
    }
}

/// Once the producer was looked up: a failed lookup stops the request;
/// otherwise the reply sends what was found (the producer or nothing) with
/// the cookie.
pub fn get_producer_found<E>(cookie: TokenCookie, found: Result<(), E>) -> (r: Next<Reply>)
    ensures
        match found {
            Err(_) => r is Abort,
            Ok(_) => r matches Next::Go(rep) && rep@ == json_result(
                Status::Success,
                Some(cookie@),
            ),
        },
{
    match found {
        Err(_) => Next::Abort(String::from_str("Error")),
        Ok(_) => Next::Go(reply_json_result(Status::Success, Some(cookie))),
    }
}

// ---------------------------------------------------------------------------
// PATCH /producer/{id}
// ---------------------------------------------------------------------------

/// An update of a producer: the cookie, the producer and its new values.
pub struct ProducerUpdate {
    pub cookie: TokenCookie,
    pub id: Oid,
    pub name: String,
    pub users: Option<Vec<Oid>>,
    pub farms: Option<Vec<Oid>>,
}

/// The first step of the producer update: a refused authorization is
/// answered with its status; a producer without a name or without farms is
/// `400` with a text and no cookie; a session whose `c_producer` is `false` is
/// `405` with the cookie; an `{id}` that is not 24 hexadecimal digits stops
/// the request; otherwise the producer is updated next with the request's
/// name, users and farms.
pub fn update_producer_authorized(req: Producer, auth: Result<Granted, Status>, id: &str) -> (r:
    Next<ProducerUpdate>)
    ensures
        match auth {
            Err(s) => replies(r, bare(s)),
            Ok(g) => if req@.name.len() == 0 || req@.farms is None {
                replies(r, text(Status::BadRequest, None, "Requisição mal formatada."@))
            } else if forbids(g.access@.c_producer) {
                replies(
                    r,
                    text(Status::MethodNotAllowed, Some(renewed_cookie(g.token@, false)), ""@),
                )
            } else if !is_object_id_text(id@) {
                r is Abort
            } else {
                r matches Next::Go(u) && u.cookie@ == renewed_cookie(g.token@, false) && u.id.bytes@
                    == object_id_bytes(id@) && u.name@ == req@.name && optional_ids(u.users)
                    == req@.users && optional_ids(u.farms) == req@.farms
            },
        },
{
    let gate = match authorized_gate(auth, false) {
        Err(rep) => return Next::Reply(rep),
        Ok(gate) => gate,
    };
    if req.name.as_str().is_empty() || req.farms.is_none() {
        return Next::Reply(
            reply_text(Status::BadRequest, None, "Requisição mal formatada."),
        );
    }
    if is_forbidden(gate.access.c_producer) {
        return Next::Reply(reply_text(Status::MethodNotAllowed, Some(gate.cookie), ""));
    }
    match parse_object_id(id) {
        None => Next::Abort(String::from_str("invalid object id")),
        Some(oid) => Next::Go(
            ProducerUpdate {
                cookie: gate.cookie,
                id: oid,
                name: req.name,
                users: req.users,
                farms: req.farms,
            },
        ),
    }
}

} // verus!
