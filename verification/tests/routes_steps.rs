use climacampo::header::TokenHeader;
use climacampo::models::property_model::{Farms, Producer};
use climacampo::models::user_model::{Access, Login, Session, User};
use climacampo::oid::Oid;
use climacampo::reply::{Body, Next, Reply, TokenCookie};
use climacampo::routes::farms_routes::{
    created_farm_authorized, get_farms_authorized, update_farm_authorized,
};
use climacampo::routes::producer_routes::{
    created_producer_authorized, get_all_producer_authorized, get_producer_authorized,
    get_producer_found, update_producer_authorized,
};
use climacampo::routes::user_routes::{
    created_user_authorized, created_user_hash, created_user_hashed, created_user_inserted,
    get_all_users_authorized, get_all_users_permitted, get_user_profile_authorized,
    get_user_profile_found, get_user_profile_id, get_user_profile_producers, login_finish, login_session_found,
    login_user_found, logoff_begin, logoff_deleted, update_access_user_authorized,
    update_profile_user_authorized, CreateUserRequest,
};
use climacampo::query::{Filter, Query};
use climacampo::routes::{
    collect_next, insert_outcome, is_forbidden, listing_opened, required_id,
    store_opened, update_outcome,
};
use climacampo::session::{created_hash, Granted, SessionWrite};
use climacampo::status::Status;

const ID: &str = "507f1f77bcf86cd799439011";
const ID_BYTES: [u8; 12] = [0x50, 0x7f, 0x1f, 0x77, 0xbc, 0xf8, 0x6c, 0xd7, 0x99, 0x43, 0x90, 0x11];

fn access(c_user: Option<bool>, c_access: Option<bool>, c_producer: Option<bool>) -> Access {
    Access { c_user, c_access, c_producer, modules: Some(vec!["clima".to_string()]) }
}

fn granted(a: Access) -> Result<Granted, Status> {
    Ok(Granted { token: "renewed".to_string(), access: a })
}

fn cookie() -> TokenCookie {
    TokenCookie { token: "renewed".to_string(), secure: false, http_only: true }
}

fn new_user() -> User {
    User {
        id: None,
        name: "Ana".to_string(),
        username: Some("ana".to_string()),
        email: "ana@campo.br".to_string(),
        password: Some("segredo".to_string()),
        access: access(Some(true), Some(true), Some(false)),
    }
}

fn text_of(r: &Reply) -> &str {
    match &r.body {
        Body::Text(t) => t.as_str(),
        _ => panic!("expected a text body"),
    }
}

fn reply_of<T>(n: Next<T>) -> Reply {
    match n {
        Next::Reply(r) => r,
        Next::Go(_) => panic!("expected a reply, got a next step"),
        Next::Abort(m) => panic!("expected a reply, got an abort: {}", m),
    }
}

fn go_of<T>(n: Next<T>) -> T {
    match n {
        Next::Go(v) => v,
        Next::Reply(r) => panic!("expected a next step, got a reply {}", r.status.code()),
        Next::Abort(m) => panic!("expected a next step, got an abort: {}", m),
    }
}

fn cookie_token(r: &Reply) -> Option<(&str, bool, bool)> {
    r.cookie.as_ref().map(|c| (c.token.as_str(), c.secure, c.http_only))
}

// ----- gate, shared steps -----

#[test]
fn refused_authorization_is_answered_with_its_status() {
    let r = reply_of(get_all_users_authorized(Err(Status::Unauthorized)));
    assert_eq!(r.status, Status::Unauthorized);
    assert!(r.cookie.is_none());
    assert!(matches!(r.body, Body::Empty));
    let r = reply_of(created_producer_authorized(
        Producer { id: None, name: "P".to_string(), users: None, farms: None },
        Err(Status::BadRequest),
    ));
    assert_eq!(r.status, Status::BadRequest);
}

#[test]
fn only_false_forbids() {
    assert!(is_forbidden(Some(false)));
    assert!(!is_forbidden(Some(true)));
    assert!(!is_forbidden(None));
}

#[test]
fn store_open_failure_is_bare() {
    let r = reply_of(store_opened(5u8, Err(Status::InternalServerError)));
    assert_eq!(r.status.code(), 500);
    assert!(r.cookie.is_none());
    assert_eq!(go_of(store_opened(5u8, Ok(()))), 5);
}

#[test]
fn listing_and_collection() {
    assert!(matches!(listing_opened::<()>(cookie(), Err(())), Next::Abort(_)));
    let r = go_of(listing_opened::<()>(cookie(), Ok(())));
    assert_eq!(r.status, Status::Success);
    assert!(matches!(r.body, Body::JsonResult));
    assert_eq!(cookie_token(&r), Some(("renewed", false, true)));
    let mut acc: Vec<i32> = vec![1];
    assert!(collect_next::<i32, ()>(&mut acc, Ok(Some(2))));
    assert!(!collect_next::<i32, ()>(&mut acc, Ok(None)));
    assert!(!collect_next::<i32, ()>(&mut acc, Err(())));
    assert_eq!(acc, vec![1, 2]);
}

#[test]
fn write_outcomes() {
    let r = update_outcome::<()>(cookie(), Ok(()));
    assert_eq!(r.status, Status::Success);
    assert!(matches!(r.body, Body::JsonResult));
    let r = update_outcome::<()>(cookie(), Err(()));
    assert_eq!(r.status, Status::BadRequest);
    assert_eq!(text_of(&r), "Errro");
    assert!(r.cookie.is_some());
    let r = insert_outcome::<()>(cookie(), Err(()));
    assert_eq!(r.status, Status::InternalServerError);
    assert_eq!(text_of(&r), "");
    assert!(r.cookie.is_none());
    let r = insert_outcome::<()>(cookie(), Ok(()));
    assert_eq!(r.status, Status::Success);
    assert!(r.cookie.is_some());
}

#[test]
fn route_ids() {
    assert_eq!(go_of(required_id(ID)).bytes, ID_BYTES);
    assert!(matches!(required_id("xyz"), Next::Abort(_)));
}

// ----- login / logoff -----

#[test]
fn login_lookup_failure_is_server_error_text() {
    let req = Login { username: "ana".to_string(), password: "x".to_string() };
    let r = reply_of(login_user_found::<()>(req, Err(())));
    assert_eq!(r.status, Status::InternalServerError);
    assert_eq!(text_of(&r), "Error interno !");
}

#[test]
fn login_unknown_user_is_unauthorized() {
    let req = Login { username: "ana".to_string(), password: "x".to_string() };
    let r = reply_of(login_user_found::<()>(req, Ok(None)));
    assert_eq!(r.status, Status::Unauthorized);
    assert!(r.cookie.is_none());
}

#[test]
fn login_round_trip_sets_the_stored_token() {
    let h = created_hash("segredo".to_string()).unwrap();
    let mut stored = new_user();
    stored.password = Some(h);
    stored.id = Some(Oid { bytes: ID_BYTES });
    let req = Login { username: "ana".to_string(), password: "segredo".to_string() };
    let session = go_of(login_user_found::<()>(req, Ok(Some(stored))));
    assert_eq!(session.user_id.bytes, ID_BYTES);
    let written_token = session.token.clone();
    let write: SessionWrite = go_of(login_session_found::<Session, ()>(session, Ok(None)));
    assert!(!write.replace);
    let r = login_finish::<()>(write, Ok(()));
    assert_eq!(r.status, Status::Success);
    assert_eq!(cookie_token(&r), Some((written_token.as_str(), false, false)));
    match r.body {
        Body::JsonAccess(a) => assert_eq!(a.c_producer, Some(false)),
        _ => panic!("expected the permissions"),
    }
}

#[test]
fn login_write_failures_are_server_errors() {
    let s = Session {
        id: None,
        user_id: Oid { bytes: [1; 12] },
        token: "t".to_string(),
        start_date: 1,
        access: access(None, None, None),
    };
    let r = reply_of(login_session_found::<Session, ()>(s, Err(())));
    assert_eq!(r.status, Status::InternalServerError);
    let s = Session {
        id: None,
        user_id: Oid { bytes: [1; 12] },
        token: "t".to_string(),
        start_date: 1,
        access: access(None, None, None),
    };
    let w = SessionWrite { session: s, replace: true };
    let r = login_finish::<()>(w, Err(()));
    assert_eq!(r.status, Status::InternalServerError);
    assert!(r.cookie.is_none());
}

#[test]
fn logoff_steps() {
    let r = reply_of(logoff_begin(TokenHeader::Missing));
    assert_eq!(r.status, Status::BadRequest);
    assert_eq!(text_of(&r), "Token não encontrado");
    let r = reply_of(logoff_begin(TokenHeader::Malformed));
    assert_eq!(text_of(&r), "Conteudo mal formatado");
    assert_eq!(go_of(logoff_begin(TokenHeader::Present("abc".to_string()))), "abc");
    let r = logoff_deleted::<()>(Ok(()));
    assert_eq!(r.status, Status::Accepted);
    assert!(matches!(r.body, Body::JsonResult));
    let r = logoff_deleted::<()>(Err(()));
    assert_eq!(r.status, Status::InternalServerError);
    assert_eq!(text_of(&r), "Error interno");
}

// ----- user routes -----

fn hidden(q: &Query) -> Vec<&str> {
    q.hidden.iter().map(|s| s.as_str()).collect()
}

fn by_id(q: &Query) -> Option<[u8; 12]> {
    match q.filter {
        Filter::ById(o) => Some(o.bytes),
        _ => None,
    }
}

#[test]
fn profile_steps() {
    let c = go_of(get_user_profile_authorized(granted(access(Some(false), None, None))));
    assert_eq!((c.token.as_str(), c.secure, c.http_only), ("renewed", false, true));
    let r = reply_of(get_user_profile_id(cookie(), "507f1f77bcf86cd79943901"));
    assert_eq!(r.status, Status::BadRequest);
    assert_eq!(text_of(&r), "");
    assert!(r.cookie.is_some());

    let req = go_of(get_user_profile_id(cookie(), ID));
    assert_eq!(req.id.bytes, ID_BYTES);
    assert_eq!(by_id(&req.query), Some(ID_BYTES));
    assert_eq!(
        hidden(&req.query),
        vec!["username", "password", "access.c_user", "access.c_access", "access.c_producer"]
    );
    let l = go_of(get_user_profile_found::<&str, ()>(req, Ok(Some("user"))));
    assert_eq!(l.id.bytes, ID_BYTES);
    assert!(matches!(l.producers.filter, Filter::HasUser(o) if o.bytes == ID_BYTES));
    assert_eq!(hidden(&l.producers), vec!["users", "farms"]);
    let (r, u) = go_of(get_user_profile_producers::<&str, ()>(l, Ok(())));
    assert_eq!(u, "user");
    assert_eq!(r.status, Status::Success);

    let req = go_of(get_user_profile_id(cookie(), ID));
    assert!(matches!(get_user_profile_found::<&str, ()>(req, Err(())), Next::Abort(_)));
    let req = go_of(get_user_profile_id(cookie(), ID));
    let l = go_of(get_user_profile_found::<&str, ()>(req, Ok(None)));
    assert!(matches!(get_user_profile_producers::<&str, ()>(l, Ok(())), Next::Abort(_)));
    let req = go_of(get_user_profile_id(cookie(), ID));
    let l = go_of(get_user_profile_found::<&str, ()>(req, Ok(Some("u"))));
    assert!(matches!(get_user_profile_producers::<&str, ()>(l, Err(())), Next::Abort(_)));
}

#[test]
fn user_listing_permission() {
    let g = go_of(get_all_users_authorized(granted(access(Some(false), None, None))));
    let r = reply_of(get_all_users_permitted(g));
    assert_eq!(r.status, Status::MethodNotAllowed);
    assert_eq!(text_of(&r), "Não permitido");
    assert_eq!(cookie_token(&r), Some(("renewed", false, true)));
    let g = go_of(get_all_users_authorized(granted(access(None, None, None))));
    let (c, q) = go_of(get_all_users_permitted(g));
    assert_eq!(c.token, "renewed");
    assert!(matches!(q.filter, Filter::Everything));
    assert_eq!(hidden(&q), vec!["username", "password"]);
}

#[test]
fn created_user_checks() {
    let mut incomplete = new_user();
    incomplete.access.modules = None;
    let r = reply_of(created_user_authorized(incomplete, granted(access(Some(false), None, None))));
    assert_eq!(r.status, Status::BadRequest);
    assert_eq!(text_of(&r), "Campos incoretos");
    assert!(r.cookie.is_some());
    let r = reply_of(created_user_authorized(new_user(), granted(access(Some(false), None, None))));
    assert_eq!(r.status, Status::MethodNotAllowed);
    assert_eq!(text_of(&r), "");
    let p = go_of(created_user_authorized(new_user(), granted(access(None, None, None))));
    assert_eq!(p.user.name, "Ana");
    assert_eq!(p.cookie.token, "renewed");
}

#[test]
fn created_user_stores_a_hash_that_verifies() {
    let p = go_of(created_user_authorized(new_user(), granted(access(Some(true), None, None))));
    let ins = go_of(created_user_hash(p));
    let h = ins.doc.password.clone().unwrap();
    assert_ne!(h, "segredo");
    assert!(h.starts_with("$2b$12$"));
    assert!(ins.doc.id.is_none());
    assert_eq!(ins.doc.username.as_deref(), Some("ana"));
    assert!(bcrypt::verify("segredo", &h).unwrap());
}

#[test]
fn created_user_without_password() {
    let mut u = new_user();
    u.password = None;
    let r = reply_of(created_user_hash(CreateUserRequest { cookie: cookie(), user: u }));
    assert_eq!(r.status, Status::BadRequest);
    assert_eq!(text_of(&r), "Campo incoreto");
    assert!(r.cookie.is_none());
}

#[test]
fn created_user_hash_failure() {
    let r = reply_of(created_user_hashed(cookie(), new_user(), Err(Status::InternalServerError)));
    assert_eq!(r.status, Status::InternalServerError);
    assert_eq!(text_of(&r), "Error ao gravar senha");
    let ins = go_of(created_user_hashed(cookie(), new_user(), Ok("h".to_string())));
    assert_eq!(ins.doc.password.as_deref(), Some("h"));
}

#[test]
fn created_user_insert_outcomes() {
    let r = created_user_inserted(cookie(), Ok(()));
    assert_eq!(r.status, Status::Success);
    let mut d = mongodb::bson::Document::new();
    d.insert("code", 11000i32);
    let w: mongodb::error::WriteError = mongodb::bson::from_document(d).unwrap();
    let e = mongodb::error::Error::from(mongodb::error::ErrorKind::Write(
        mongodb::error::WriteFailure::WriteError(w),
    ));
    let r = created_user_inserted(cookie(), Err(e));
    assert_eq!(r.status, Status::Conflict);
    assert!(r.cookie.is_some());
    match r.body {
        Body::JsonText(t) => assert_eq!(t, "Dados existentes"),
        _ => panic!("expected a JSON string"),
    }
    let other = mongodb::error::Error::from(mongodb::error::ErrorKind::SessionsNotSupported);
    let r = created_user_inserted(cookie(), Err(other));
    assert_eq!(r.status, Status::InternalServerError);
    match r.body {
        Body::JsonText(t) => assert_eq!(t, "Erro desconheciddo"),
        _ => panic!("expected a JSON string"),
    }
}

#[test]
fn access_update_steps() {
    let mut partial = access(Some(true), Some(true), Some(true));
    partial.modules = None;
    let r = reply_of(update_access_user_authorized(partial, granted(access(None, None, None)), ID));
    assert_eq!(r.status, Status::BadRequest);
    assert_eq!(text_of(&r), "Requisição mal formatada.");
    assert!(r.cookie.is_none());
    let r = reply_of(update_access_user_authorized(
        access(Some(true), Some(true), Some(true)),
        granted(access(None, Some(false), None)),
        ID,
    ));
    assert_eq!(r.status, Status::MethodNotAllowed);
    assert!(matches!(
        update_access_user_authorized(access(Some(true), Some(true), Some(true)), granted(access(None, None, None)), "bad"),
        Next::Abort(_)
    ));
    let u = go_of(update_access_user_authorized(
        access(Some(true), Some(false), Some(true)),
        granted(access(None, Some(true), None)),
        ID,
    ));
    assert_eq!(u.id.bytes, ID_BYTES);
    assert_eq!(u.access.c_access, Some(false));
}

#[test]
fn profile_update_steps() {
    let mut u = new_user();
    u.email = String::new();
    let r = reply_of(update_profile_user_authorized(u, granted(access(None, None, None)), ID));
    assert_eq!(r.status, Status::BadRequest);
    assert!(r.cookie.is_none());
    let r = reply_of(update_profile_user_authorized(new_user(), granted(access(Some(false), None, None)), ID));
    assert_eq!(r.status, Status::MethodNotAllowed);
    assert_eq!(cookie_token(&r), Some(("renewed", true, true)));
    let p = go_of(update_profile_user_authorized(new_user(), granted(access(None, None, None)), ID));
    assert_eq!(p.name, "Ana");
    assert_eq!(p.email, "ana@campo.br");
    assert!(p.cookie.secure);
}

// ----- producers and farms -----

#[test]
fn producer_creation_steps() {
    let named = || Producer { id: None, name: "Sitio".to_string(), users: Some(vec![Oid { bytes: [1; 12] }]), farms: None };
    let r = reply_of(created_producer_authorized(
        Producer { id: None, name: String::new(), users: None, farms: None },
        granted(access(None, None, None)),
    ));
    assert_eq!(r.status, Status::BadRequest);
    assert_eq!(text_of(&r), "Campos incoretos");
    let r = reply_of(created_producer_authorized(named(), granted(access(None, None, Some(false)))));
    assert_eq!(r.status, Status::MethodNotAllowed);
    let p = go_of(created_producer_authorized(named(), granted(access(None, None, Some(true)))));
    assert_eq!(p.doc.name, "Sitio");
    assert!(p.doc.users.is_none() && p.doc.farms.is_none() && p.doc.id.is_none());
}

#[test]
fn producer_listing_and_lookup() {
    let r = reply_of(get_all_producer_authorized(granted(access(None, None, Some(false)))));
    assert_eq!(text_of(&r), "Não permitido");
    let (c, q) = go_of(get_all_producer_authorized(granted(access(Some(false), None, None))));
    assert_eq!(c.token, "renewed");
    assert!(matches!(q.filter, Filter::Everything) && q.hidden.is_empty());
    let r = reply_of(get_producer_authorized(granted(access(None, None, None)), "nope"));
    assert_eq!(r.status, Status::BadRequest);
    let (c, q) = go_of(get_producer_authorized(granted(access(None, None, None)), ID));
    assert_eq!(by_id(&q), Some(ID_BYTES));
    assert_eq!(hidden(&q), vec!["farms"]);
    let r = go_of(get_producer_found::<()>(c, Ok(())));
    assert_eq!(r.status, Status::Success);
    assert!(matches!(get_producer_found::<()>(cookie(), Err(())), Next::Abort(_)));
}

#[test]
fn producer_update_steps() {
    let without_farms = Producer { id: None, name: "P".to_string(), users: None, farms: None };
    let r = reply_of(update_producer_authorized(without_farms, granted(access(None, None, None)), ID));
    assert_eq!(r.status, Status::BadRequest);
    assert!(r.cookie.is_none());
    let full = || Producer { id: None, name: "P".to_string(), users: None, farms: Some(vec![Oid { bytes: [2; 12] }]) };
    let r = reply_of(update_producer_authorized(full(), granted(access(None, None, Some(false))), ID));
    assert_eq!(r.status, Status::MethodNotAllowed);
    assert!(matches!(update_producer_authorized(full(), granted(access(None, None, None)), "x"), Next::Abort(_)));
    let u = go_of(update_producer_authorized(full(), granted(access(None, None, None)), ID));
    assert_eq!(u.farms.unwrap()[0].bytes, [2; 12]);
}

#[test]
fn farm_steps() {
    let farm = || Farms { id: None, name: "Norte".to_string(), fields: Some(vec![Oid { bytes: [4; 12] }]) };
    let r = reply_of(created_farm_authorized(Farms { id: None, name: String::new(), fields: None }, granted(access(None, None, None))));
    assert_eq!(text_of(&r), "Campos incoretos");
    let r = reply_of(created_farm_authorized(farm(), granted(access(None, None, Some(false)))));
    assert_eq!(r.status, Status::MethodNotAllowed);
    let ins = go_of(created_farm_authorized(farm(), granted(access(None, None, None))));
    assert_eq!(ins.doc.fields.unwrap()[0].bytes, [4; 12]);
    let r = reply_of(get_farms_authorized(granted(access(Some(false), None, None))));
    assert_eq!(text_of(&r), "Não permitido");
    let (c, q) = go_of(get_farms_authorized(granted(access(None, None, Some(false)))));
    assert_eq!(c.token, "renewed");
    assert!(matches!(q.filter, Filter::Everything) && q.hidden.is_empty());
    let r = reply_of(update_farm_authorized(Farms { id: None, name: String::new(), fields: None }, granted(access(None, None, None)), ID));
    assert_eq!(text_of(&r), "Requisição mal formatada.");
    assert!(matches!(update_farm_authorized(farm(), granted(access(None, None, None)), "zz"), Next::Abort(_)));
    let u = go_of(update_farm_authorized(farm(), granted(access(None, None, None)), ID));
    assert_eq!(u.name, "Norte");
    assert_eq!(u.id.bytes, ID_BYTES);
}

#[test]
fn login_token_then_check_grants_same_access() {
    let h = created_hash("segredo".to_string()).unwrap();
    let mut stored = new_user();
    stored.password = Some(h);
    stored.id = Some(Oid { bytes: ID_BYTES });
    let req = Login { username: "ana".to_string(), password: "segredo".to_string() };
    let session = go_of(login_user_found::<()>(req, Ok(Some(stored))));
    let start = session.start_date;
    let token = session.token.clone();
    let r = climacampo::session::authorization_decide(session, start + 1000, "next".to_string(), start + 1000)
        .unwrap();
    assert_eq!(r.user_id.bytes, ID_BYTES);
    assert_eq!(r.access.c_producer, Some(false));
    assert_eq!(r.token, "next");
    assert_ne!(r.token, token);
}

#[test]
fn repeated_access_update_writes_the_same_values() {
    let a = go_of(update_access_user_authorized(
        access(Some(true), Some(false), Some(true)),
        granted(access(None, None, None)),
        ID,
    ));
    let b = go_of(update_access_user_authorized(
        access(Some(true), Some(false), Some(true)),
        granted(access(None, None, None)),
        ID,
    ));
    assert_eq!(a.id.bytes, b.id.bytes);
    assert_eq!(a.access.c_user, b.access.c_user);
    assert_eq!(a.access.c_access, b.access.c_access);
    assert_eq!(a.access.c_producer, b.access.c_producer);
    assert_eq!(a.access.modules, b.access.modules);
}
