use arcticoj::blizzard::auth::{
    accept_register, login, new_user, register, valid_handle, LoginOutcome, LoginResp, RegisterOutcome, RegisterReq,
    RegisterResp,
};
use arcticoj::blizzard::config::{listener, server_url, Address, Config, Listener, Protocol};
use arcticoj::blizzard::db::{backend_name, Backend};
use arcticoj::blizzard::error::{ApiError, DbErrKind, DbError, SqlErr};
use arcticoj::blizzard::hash::{hash_pwd, verify_pwd, verify_pwd_checked};
use arcticoj::blizzard::route::{delete_user, extract, get_users};
use arcticoj::blizzard::user::{find_by_email_or_handle, Column, Model};

fn user(password: &str) -> Model {
    Model {
        id: 7,
        uid: "c".repeat(32),
        handle: "alice_01".to_string(),
        display_name: None,
        email: "alice@example.com".to_string(),
        password: password.to_string(),
        api_key: None,
        rating: 0,
        bio: None,
    }
}

fn db_err(kind: DbErrKind, sql: Option<SqlErr>) -> DbError {
    DbError { kind, text: "db failure".to_string(), sql }
}

#[test]
fn config_defaults() {
    assert_eq!(Protocol::default(), Protocol::Tcp);
    let c = Config::default();
    assert_eq!(c.database_url, "sqlite::memory:");
    assert_eq!(c.listener.protocol, Protocol::Tcp);
    assert_eq!(c.listener.path, "127.0.0.1:2999");
    assert_eq!(server_url(&c.listener), Some("http://127.0.0.1:2999".to_string()));
    let unix = Address { protocol: Protocol::Unix, path: "/run/b.sock".to_string() };
    assert_eq!(server_url(&unix), None);
    assert!(matches!(listener(&unix), Listener::Unix(p) if p == "/run/b.sock"));
    assert!(matches!(listener(&c.listener), Listener::Tcp(p) if p == "127.0.0.1:2999"));
}

#[test]
fn backend_names() {
    assert_eq!(backend_name(Backend::Postgres), "postgres");
    assert_eq!(backend_name(Backend::Sqlite), "sqlite");
    assert_eq!(backend_name(Backend::MySql), "unknown");
}

#[test]
fn api_error_text_and_body() {
    let e = ApiError::from(404, "no such user".to_string());
    assert_eq!(e.status(), 404);
    assert_eq!(e.display(), "404: no such user");
    assert_eq!(e.response_body(), r#"{"code":404,"message":"404: no such user"}"#);
    let q = ApiError::from(500, "say \"hi\"\n".to_string());
    assert_eq!(q.response_body(), r#"{"code":500,"message":"500: say \"hi\"\n"}"#);
    let c = ApiError::from(500, "a\\b\u{1}\t\u{1f}é/".to_string());
    assert_eq!(c.response_body(), r#"{"code":500,"message":"500: a\\b\u0001\t\u001fé/"}"#);
}

#[test]
fn database_errors_map_to_statuses() {
    let e = ApiError::from_db(&db_err(DbErrKind::RecordNotFound("user 3".to_string()), None));
    assert_eq!((e.code, e.message.as_str()), (404, "user 3"));
    let e = ApiError::from_db(&db_err(DbErrKind::RecordNotInserted, None));
    assert_eq!((e.code, e.message.as_str()), (409, "db failure"));
    let e = ApiError::from_db(&db_err(DbErrKind::RecordNotUpdated, None));
    assert_eq!(e.code, 409);
    let e = ApiError::from_db(&db_err(DbErrKind::Other, None));
    assert_eq!((e.code, e.message.as_str()), (500, "db failure"));
}

#[test]
fn lookup_by_email_or_handle() {
    let q = find_by_email_or_handle("alice");
    assert_eq!(q.conditions.len(), 2);
    assert_eq!(q.conditions[0].column, Column::Handle);
    assert_eq!(q.conditions[0].value, "alice");
    assert_eq!(q.conditions[1].column, Column::Email);
    assert_eq!(q.conditions[1].value, "alice");
}

#[test]
fn handles() {
    assert!(valid_handle("alice_01"));
    assert!(valid_handle("ABCDEF"));
    assert!(valid_handle(&"a".repeat(24)));
    assert!(!valid_handle("abc"));
    assert!(!valid_handle(&"a".repeat(25)));
    assert!(!valid_handle("alice-01"));
    assert!(!valid_handle("alicé_01"));
}

/// A PHC string of "hunter22" under Argon2id with the smallest costs, so
/// that checks against it are quick.
const HUNTER22_PHC: &str =
    "$argon2id$v=19$m=8,t=1,p=1$AAECAwQFBgcICQoLDA0ODw$fIUQQUWS1DLm/Pk0IAPZfrzQ/Yo44SkdN1PgSPV1iyA";

#[test]
fn password_hash_roundtrip_and_login() {
    let h = hash_pwd("hunter22");
    assert!(h.starts_with("$argon2id$v=19$m=65536,t=3,p=4$"));
    assert!(verify_pwd(&h, "hunter22"));
}

#[test]
fn stored_hashes_are_verified() {
    assert!(verify_pwd(HUNTER22_PHC, "hunter22"));
    assert!(!verify_pwd(HUNTER22_PHC, "hunter23"));
    assert_eq!(verify_pwd_checked("not a hash", "x"), None);
    assert_eq!(verify_pwd_checked(HUNTER22_PHC, "hunter22"), Some(true));
}

/// The JSON claims carried by a v4 public token: its base64url body, less
/// the 64-byte signature.
fn token_payload(t: &str) -> serde_json::Value {
    let body = t.strip_prefix("v4.public.").expect("a v4 public token");
    let mut bits: u32 = 0;
    let mut n = 0;
    let mut bytes = Vec::new();
    for c in body.bytes() {
        let v = match c {
            b'A'..=b'Z' => c - b'A',
            b'a'..=b'z' => c - b'a' + 26,
            b'0'..=b'9' => c - b'0' + 52,
            b'-' => 62,
            b'_' => 63,
            _ => panic!("not base64url"),
        } as u32;
        bits = (bits << 6) | v;
        n += 6;
        if n >= 8 {
            n -= 8;
            bytes.push((bits >> n) as u8);
            bits &= (1 << n) - 1;
        }
    }
    let msg = &bytes[..bytes.len() - 64];
    serde_json::from_slice(msg).expect("claims JSON")
}

#[test]
fn login_outcomes() {
    let ok = login(Ok(Some(user(HUNTER22_PHC))), "hunter22");
    match &ok {
        LoginOutcome::Granted(t) => {
            assert!(t.starts_with("v4.public."));
            let claims = token_payload(t);
            assert_eq!(claims["uid"], serde_json::Value::String("c".repeat(32)));
            let mut keys: Vec<&String> = claims.as_object().unwrap().keys().collect();
            keys.sort();
            assert_eq!(keys, vec!["exp", "iat", "nbf", "uid"]);
        }
        other => panic!("unexpected {:?}", other),
    }
    assert_eq!(ok.response(), Some(LoginResp::LoggedIn));
    let bad = login(Ok(Some(user(HUNTER22_PHC))), "wrong");
    assert!(matches!(bad, LoginOutcome::Bad));
    assert_eq!(bad.response(), Some(LoginResp::Bad));
    assert!(matches!(login(Ok(None), "x"), LoginOutcome::Bad));
    let err = login(Err(db_err(DbErrKind::Other, None)), "x");
    assert_eq!(err.response(), Some(LoginResp::InternalError));
    let corrupt = login(Ok(Some(user("plain"))), "plain");
    assert!(matches!(corrupt, LoginOutcome::CorruptHash));
    assert_eq!(corrupt.response(), None);
}

#[test]
fn new_users_are_hashed_before_insert() {
    let req = RegisterReq {
        display_name: Some("Alice".to_string()),
        handle: "alice_01".to_string(),
        email: "alice@example.com".to_string(),
        password: "s3cret!!".to_string(),
    };
    let m = new_user(&req);
    assert_eq!(m.handle.as_deref(), Some("alice_01"));
    assert_eq!(m.password.as_deref(), Some("s3cret!!"));
    assert!(m.uid.is_none());
    let unchanged = new_user(&req).before_save(false);
    assert_eq!(unchanged.password.as_deref(), Some("s3cret!!"));
    assert!(unchanged.uid.is_none());
    let saved = m.before_save(true);
    let h = saved.password.clone().unwrap();
    assert!(verify_pwd(&h, "s3cret!!"));
    assert_eq!(saved.uid.as_ref().map(|u| u.len()), Some(32));
    let uid = saved.uid.clone().unwrap();
    assert!(uid.as_bytes()[0].is_ascii_lowercase());
    assert!(uid.bytes().skip(1).all(|b| b.is_ascii_digit() || b.is_ascii_lowercase()));
    let accepted = accept_register(&req).unwrap();
    assert_eq!(accepted.handle.as_deref(), Some("alice_01"));
    assert_eq!(accepted.password.as_deref(), Some("s3cret!!"));
    let short = RegisterReq { handle: "bob".to_string(), ..req };
    assert!(accept_register(&short).is_none());
    assert_eq!(saved.email.as_deref(), Some("alice@example.com"));
}

#[test]
fn registration_outcomes() {
    match register(Ok(user("x"))) {
        RegisterOutcome::Created { id, token } => {
            assert_eq!(id, 7);
            assert!(token.starts_with("v4.public."));
        }
        other => panic!("unexpected {:?}", other),
    }
    let dup = register(Err(db_err(
        DbErrKind::Other,
        Some(SqlErr::UniqueConstraintViolation("UNIQUE constraint failed: users.handle".to_string())),
    )));
    assert!(matches!(dup.response(), Some(RegisterResp::Conflict(m)) if m == "UNIQUE constraint failed: users.handle"));
    let fk = register(Err(db_err(DbErrKind::Other, Some(SqlErr::ForeignKeyConstraintViolation("fk".to_string())))));
    assert!(matches!(fk.response(), Some(RegisterResp::InternalError)));
    let created = register(Ok(user("x"))).response();
    assert!(matches!(created, Some(RegisterResp::Created(7))));
}

#[test]
fn placeholder_routes() {
    assert!(get_users().is_empty());
    assert_eq!(delete_user("42".to_string()), "42");
    assert!(extract().is_empty());
}
