use climacampo::header::{read_token_header, TokenHeader};
use climacampo::models::user_model::{Access, Session, User};
use climacampo::oid::Oid;
use climacampo::session::{
    authentication, authorization_begin, authorization_decide, authorization_found,
    authorization_renewed, created_hash, created_session_found, created_session_written,
    hashed_password, is_fresh, session_for, Renewal, EXPIRATION_IN_MILLISECONDS,
};
use climacampo::status::Status;

fn access_all() -> Access {
    Access {
        c_user: Some(true),
        c_access: Some(false),
        c_producer: None,
        modules: Some(vec!["clima".to_string(), "mapa".to_string()]),
    }
}

fn stored_user(password: Option<String>, id: Option<Oid>) -> User {
    User {
        id,
        name: "Ana".to_string(),
        username: Some("ana".to_string()),
        email: "ana@campo.br".to_string(),
        password,
        access: access_all(),
    }
}

fn is_uuid_text(t: &str) -> bool {
    let b = t.as_bytes();
    b.len() == 36
        && b.iter().enumerate().all(|(i, c)| {
            if i == 8 || i == 13 || i == 18 || i == 23 {
                *c == b'-'
            } else {
                c.is_ascii_digit() || (b'a'..=b'f').contains(c)
            }
        })
        && b[14] == b'4'
}

fn session_at(start_date: i64) -> Session {
    Session {
        id: None,
        user_id: Oid { bytes: [7; 12] },
        token: "old-token".to_string(),
        start_date,
        access: access_all(),
    }
}

#[test]
fn created_hash_has_bcrypt_form() {
    let h = created_hash("segredo".to_string()).unwrap();
    assert_eq!(h.len(), 60);
    assert!(h.starts_with("$2b$12$"));
}

#[test]
fn created_password_logs_in() {
    let h = created_hash("segredo".to_string()).unwrap();
    let id = Oid { bytes: [1, 2, 3, 4, 5, 6, 7, 8, 9, 10, 11, 12] };
    let session = authentication("segredo".to_string(), Some(stored_user(Some(h), Some(id))))
        .unwrap();
    assert_eq!(session.user_id.bytes, id.bytes);
    assert!(session.id.is_none());
    assert!(is_uuid_text(&session.token));
    assert_eq!(session.access.c_user, Some(true));
    assert_eq!(session.access.c_access, Some(false));
    assert_eq!(session.access.c_producer, None);
    assert_eq!(session.access.modules, Some(vec!["clima".to_string(), "mapa".to_string()]));
}

#[test]
fn wrong_password_is_unauthorized() {
    let h = created_hash("segredo".to_string()).unwrap();
    let r = authentication("outra".to_string(), Some(stored_user(Some(h), Some(Oid { bytes: [0; 12] }))));
    assert_eq!(r.err(), Some(Status::Unauthorized));
}

#[test]
fn unknown_user_is_unauthorized() {
    assert_eq!(authentication("x".to_string(), None).err(), Some(Status::Unauthorized));
}

#[test]
fn user_without_password_is_bad_request() {
    let r = authentication("x".to_string(), Some(stored_user(None, Some(Oid { bytes: [0; 12] }))));
    assert_eq!(r.err(), Some(Status::BadRequest));
}

#[test]
fn malformed_stored_hash_is_server_error() {
    let r = authentication(
        "x".to_string(),
        Some(stored_user(Some("not a hash".to_string()), Some(Oid { bytes: [0; 12] }))),
    );
    assert_eq!(r.err(), Some(Status::InternalServerError));
}

#[test]
fn user_without_id_is_partial_content() {
    let h = created_hash("segredo".to_string()).unwrap();
    let r = authentication("segredo".to_string(), Some(stored_user(Some(h), None)));
    assert_eq!(r.err(), Some(Status::PartialContent));
}

#[test]
fn hashed_password_maps_failure() {
    assert_eq!(hashed_password(None).err(), Some(Status::InternalServerError));
    assert_eq!(hashed_password(Some("h".to_string())).unwrap(), "h");
}

#[test]
fn token_header_reading() {
    assert!(matches!(read_token_header(None), TokenHeader::Missing));
    match read_token_header(Some(b"abc-123 \tx".to_vec())) {
        TokenHeader::Present(t) => assert_eq!(t, "abc-123 \tx"),
        _ => panic!("expected a token"),
    }
    match read_token_header(Some(Vec::new())) {
        TokenHeader::Present(t) => assert_eq!(t, ""),
        _ => panic!("expected an empty token"),
    }
    assert!(matches!(read_token_header(Some(vec![b'a', 1])), TokenHeader::Malformed));
    assert!(matches!(read_token_header(Some(vec![0x7f])), TokenHeader::Malformed));
    assert!(matches!(read_token_header(Some(vec![0xc3, 0xa9])), TokenHeader::Malformed));
}

#[test]
fn authorization_begin_needs_a_readable_header() {
    assert_eq!(authorization_begin(TokenHeader::Missing).err(), Some(Status::BadRequest));
    assert_eq!(authorization_begin(TokenHeader::Malformed).err(), Some(Status::BadRequest));
    assert_eq!(authorization_begin(TokenHeader::Present("t".to_string())).unwrap(), "t");
}

#[test]
fn freshness_boundary() {
    assert!(is_fresh(1_000 + EXPIRATION_IN_MILLISECONDS - 1, 1_000));
    assert!(!is_fresh(1_000 + EXPIRATION_IN_MILLISECONDS, 1_000));
    assert!(is_fresh(0, 0));
    assert!(is_fresh(i64::MIN, i64::MAX));
    assert!(!is_fresh(i64::MAX, i64::MIN));
}

#[test]
fn expired_session_stays_expired() {
    let start = 5_000;
    let now = start + EXPIRATION_IN_MILLISECONDS;
    assert!(!is_fresh(now, start));
    assert!(!is_fresh(now + 1, start));
    assert!(!is_fresh(now + 10 * EXPIRATION_IN_MILLISECONDS, start));
}

#[test]
fn decide_renews_fresh_session() {
    let r = authorization_decide(session_at(100), 200, "new".to_string(), 300).unwrap();
    assert_eq!(r.user_id.bytes, [7; 12]);
    assert_eq!(r.token, "new");
    assert_eq!(r.start_date, 300);
    assert_eq!(r.access.c_user, Some(true));
}

#[test]
fn decide_refuses_expired_session() {
    let r = authorization_decide(session_at(0), EXPIRATION_IN_MILLISECONDS, "new".to_string(), 1);
    assert_eq!(r.err(), Some(Status::Unauthorized));
}

#[test]
fn found_session_outcomes() {
    assert_eq!(authorization_found::<()>(Err(())).err(), Some(Status::InternalServerError));
    assert_eq!(authorization_found::<()>(Ok(None)).err(), Some(Status::Unauthorized));
    assert_eq!(authorization_found::<()>(Ok(Some(session_at(0)))).err(), Some(Status::Unauthorized));
    let now = chrono::Utc::now().timestamp_millis();
    let r = authorization_found::<()>(Ok(Some(session_at(now)))).unwrap();
    assert!(is_uuid_text(&r.token));
    assert_ne!(r.token, "old-token");
    assert!(r.start_date >= now);
    assert_eq!(r.user_id.bytes, [7; 12]);
}

#[test]
fn renewal_outcomes() {
    let ren = Renewal { user_id: Oid { bytes: [0; 12] }, token: "t2".to_string(), start_date: 9, access: access_all() };
    let g = authorization_renewed::<()>(ren, Ok(())).unwrap();
    assert_eq!(g.token, "t2");
    assert_eq!(g.access.c_access, Some(false));
    let ren = Renewal { user_id: Oid { bytes: [0; 12] }, token: "t2".to_string(), start_date: 9, access: access_all() };
    assert_eq!(authorization_renewed::<()>(ren, Err(())).err(), Some(Status::InternalServerError));
}

#[test]
fn session_write_follows_lookup() {
    let s = session_for(Oid { bytes: [3; 12] }, &access_all(), "tok".to_string(), 42);
    assert_eq!(s.start_date, 42);
    let w = created_session_found::<Session, ()>(s, Ok(None)).unwrap();
    assert!(!w.replace);
    let (token, access) = created_session_written::<()>(w, Ok(())).unwrap();
    assert_eq!(token, "tok");
    assert_eq!(access.c_user, Some(true));

    let s = session_for(Oid { bytes: [3; 12] }, &access_all(), "tok".to_string(), 42);
    let w = created_session_found::<i32, ()>(s, Ok(Some(1))).unwrap();
    assert!(w.replace);
    assert_eq!(created_session_written::<()>(w, Err(())).err(), Some(Status::InternalServerError));

    let s = session_for(Oid { bytes: [3; 12] }, &access_all(), "tok".to_string(), 42);
    assert_eq!(created_session_found::<i32, ()>(s, Err(())).err(), Some(Status::InternalServerError));
}
