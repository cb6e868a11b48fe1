use vstd::prelude::*;
use vstd::string::*;

use crate::models::property_model::{copy_optional_ids, Farms, FarmsView};
use crate::oid::{is_object_id_text, object_id_bytes, parse_object_id, Oid};
use crate::reply::{bare, replies, reply_text, text, Next, TokenCookie};
use crate::routes::{authorized_gate, forbids, is_forbidden, renewed_cookie};
use crate::session::Granted;
use crate::query::{whole_listing, whole_listing_query, Query};
use crate::status::Status;

verus! {

// ---------------------------------------------------------------------------
// POST /farm
// ---------------------------------------------------------------------------

/// A farm creation ready to be inserted: the cookie and the document.
pub struct FarmInsert {
    pub cookie: TokenCookie,
    pub doc: Farms,
}

/// The farm document to insert: the request's name and fields, no id.
pub open spec fn new_farm_view(req: FarmsView) -> FarmsView {
    FarmsView { id: None, name: req.name, fields: req.fields }
}

/// The first step of the farm creation: a refused authorization is answered
/// with its status; a farm without a name is `400` with the cookie; a session
/// whose `c_producer` is `false` is `405` with the cookie; otherwise the new
/// farm is inserted next.
pub fn created_farm_authorized(req: Farms, auth: Result<Granted, Status>) -> (r: Next<FarmInsert>)
    ensures
        match auth {
            Err(s) => replies(r, bare(s)),
            Ok(g) => if req@.name.len() == 0 {
                replies(
                    r,
                    text(
                        Status::BadRequest,
                        Some(renewed_cookie(g.token@, false)),
                        "Campos incoretos"@,
                    ),
                )
            } else if forbids(g.access@.c_producer) {
                replies(
                    r,
                    text(Status::MethodNotAllowed, Some(renewed_cookie(g.token@, false)), ""@),
                )
            } else {
                r matches Next::Go(p) && p.cookie@ == renewed_cookie(g.token@, false) && p.doc@
                    == new_farm_view(req@) && p.doc@.id is None && p.doc@.name == req@.name
                    && p.doc@.fields == req@.fields
            },
        },
{
    let gate = match authorized_gate(auth, false) {
        Err(rep) => return Next::Reply(rep),
        Ok(gate) => gate,
    };
    if req.name.as_str().is_empty() {
        return Next::Reply(reply_text(Status::BadRequest, Some(gate.cookie), "Campos incoretos"));
    }
    if is_forbidden(gate.access.c_producer) {
        return Next::Reply(reply_text(Status::MethodNotAllowed, Some(gate.cookie), ""));
    }
    let fields = copy_optional_ids(&req.fields);
    Next::Go(FarmInsert { cookie: gate.cookie, doc: Farms { id: None, name: req.name, fields } })
}

// ---------------------------------------------------------------------------
// GET /farms
// ---------------------------------------------------------------------------

/// The first step of the farm listing: a refused authorization is answered
/// with its status; a session whose `c_user` is `false` is `405` with the
/// cookie; otherwise every farm is read, whole.
pub fn get_farms_authorized(auth: Result<Granted, Status>) -> (r: Next<(TokenCookie, Query)>)
    ensures
        match auth {
            Err(s) => replies(r, bare(s)),
            Ok(g) => if forbids(g.access@.c_user) {
                replies(
                    r,
                    text(
                        Status::MethodNotAllowed,
                        Some(renewed_cookie(g.token@, false)),
                        "Não permitido"@,
                    ),
                )
            } else {
                r matches Next::Go(p) && p.0@ == renewed_cookie(g.token@, false) && p.1@
                    == whole_listing_query()
            },
        },
{
    let gate = match authorized_gate(auth, false) {
        Err(rep) => return Next::Reply(rep),
        Ok(gate) => gate,
    };
    if is_forbidden(gate.access.c_user) {
        return Next::Reply(
            reply_text(Status::MethodNotAllowed, Some(gate.cookie), "Não permitido"),
        );
    }
    Next::Go((gate.cookie, whole_listing()))
}

// ---------------------------------------------------------------------------
// PATCH /farm/{id}
// ---------------------------------------------------------------------------

/// A rename of a farm: the cookie, the farm and its new name.
pub struct FarmUpdate {
    pub cookie: TokenCookie,
    pub id: Oid,
    pub name: String,
}

/// The first step of the farm update: a refused authorization is answered
/// with its status; a farm without a name is `400` with a text and no cookie;
/// a session whose `c_producer` is `false` is `405` with the cookie; an `{id}`
/// that is not 24 hexadecimal digits stops the request; otherwise the farm is
/// renamed next.
pub fn update_farm_authorized(req: Farms, auth: Result<Granted, Status>, id: &str) -> (r: Next<
    FarmUpdate,
>)
    ensures
        match auth {
            Err(s) => replies(r, bare(s)),
            Ok(g) => if req@.name.len() == 0 {
                replies(r, text(Status::BadRequest, None, "Requisição mal formatada."@))
            } else if forbids(g.access@.c_producer) {
                replies(
                    r,
                    text(Status::MethodNotAllowed, Some(renewed_cookie(g.token@, false)), ""@),
                )
            } else if !is_object_id_text(id@) {
                r is Abort
            } else {
                r matches Next::Go(u) && u.cookie@ == renewed_cookie(g.token@, false) && u.id.bytes@
                    == object_id_bytes(id@) && u.name@ == req@.name
            },
        },
{
    let gate = match authorized_gate(auth, false) {
        Err(rep) => return Next::Reply(rep),
        Ok(gate) => gate,
    };
    if req.name.as_str().is_empty() {
        return Next::Reply(
            reply_text(Status::BadRequest, None, "Requisição mal formatada."),
        );
    }
    if is_forbidden(gate.access.c_producer) {
        return Next::Reply(reply_text(Status::MethodNotAllowed, Some(gate.cookie), ""));
    }
    match parse_object_id(id) {
        None => Next::Abort(String::from_str("invalid object id")),
        Some(oid) => Next::Go(FarmUpdate { cookie: gate.cookie, id: oid, name: req.name }),
    }
}

} // verus!
