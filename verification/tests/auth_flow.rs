use postboard::auth_handlers::{login_handler, logout_handler, register_handler, status_handler};
use postboard::response::{AppError, ResponseData, Status};
use postboard::schema::{LoginUserSchema, RegisterUserSchema};
use postboard::session::SessionStore;
use postboard::session_auth::auth;
use postboard::store::Database;

fn register_body(username: &str, email: &str, password: &str) -> RegisterUserSchema {
    RegisterUserSchema {
        username: username.to_string(),
        email: email.to_string(),
        password: password.to_string(),
    }
}

fn expect_single_fail(e: &AppError, field: &str, message: &str) {
    match e {
        AppError::JsendFail(v) => {
            assert_eq!(v.len(), 1, "expected exactly one field error");
            assert_eq!(v[0].field, field);
            assert_eq!(v[0].message, message);
        },
        _ => panic!("expected a business fail"),
    }
}

#[test]
fn register_creates_user_and_default_profile() {
    let mut db = Database::new();
    let r = register_handler(&mut db, &register_body("alice", "a@x.co", "password1")).unwrap();
    assert!(matches!(r.status, Status::Success));
    assert!(r.message.is_none());
    assert!(r.data.is_none());
    assert_eq!(db.users.len(), 1);
    assert_eq!(db.users[0].username, "alice");
    assert_eq!(db.users[0].email, "a@x.co");
    assert_eq!(db.users[0].role, "user");
    // the stored password is a hash, never the plain text
    assert_ne!(db.users[0].password, "password1");
    assert_eq!(db.profiles.len(), 1);
    assert_eq!(db.profiles[0].user_id, db.users[0].id);
    assert_eq!(db.profiles[0].profile_image, "default.jpg");
    assert_eq!(db.profiles[0].bio, "");
}

#[test]
fn register_same_username_fails_with_only_username_key() {
    let mut db = Database::new();
    register_handler(&mut db, &register_body("alice", "a@x.co", "password1")).unwrap();
    let e = register_handler(&mut db, &register_body("alice", "b@x.co", "password2")).unwrap_err();
    expect_single_fail(&e, "username", "username already exists");
    assert_eq!(db.users.len(), 1);
}

#[test]
fn register_same_email_fails_with_only_email_key() {
    let mut db = Database::new();
    register_handler(&mut db, &register_body("alice", "a@x.co", "password1")).unwrap();
    let e = register_handler(&mut db, &register_body("bob", "a@x.co", "password2")).unwrap_err();
    expect_single_fail(&e, "email", "email already exists");
}

#[test]
fn register_duplicate_username_and_email_reports_both() {
    let mut db = Database::new();
    register_handler(&mut db, &register_body("alice", "a@x.co", "password1")).unwrap();
    let e = register_handler(&mut db, &register_body("alice", "a@x.co", "password2")).unwrap_err();
    match e {
        AppError::JsendFail(v) => {
            assert_eq!(v.len(), 2);
            assert_eq!(v[0].field, "username");
            assert_eq!(v[0].message, "username already exists");
            assert_eq!(v[1].field, "email");
            assert_eq!(v[1].message, "email already exists");
        },
        _ => panic!("expected a business fail"),
    }
}

#[test]
fn register_stores_email_lowercased() {
    let mut db = Database::new();
    register_handler(&mut db, &register_body("alice", "A@X.CO", "password1")).unwrap();
    assert_eq!(db.users[0].email, "a@x.co");
    // the raw pre-check compares the stored (lowercased) form
    let e = register_handler(&mut db, &register_body("bob", "a@x.co", "password2")).unwrap_err();
    expect_single_fail(&e, "email", "email already exists");
}

#[test]
fn register_lowercase_collision_surfaces_as_server_fault() {
    let mut db = Database::new();
    register_handler(&mut db, &register_body("alice", "a@x.co", "password1")).unwrap();
    // the raw form differs, so both uniqueness pre-checks pass; the
    // stored lowercased form then collides, as a storage constraint would
    let e = register_handler(&mut db, &register_body("bob", "A@X.CO", "password2")).unwrap_err();
    assert!(matches!(e, AppError::InternalServerError));
    assert_eq!(db.users.len(), 1);
}

#[test]
fn register_invalid_body_reports_fields() {
    let mut db = Database::new();
    let e = register_handler(&mut db, &register_body("a", "ok@x.co", "password1")).unwrap_err();
    match e {
        AppError::ValidationError(v) => {
            assert_eq!(v.len(), 1);
            assert_eq!(v[0].field, "username");
            assert_eq!(v[0].message, "username cannot be empty");
        },
        _ => panic!("expected a validation error"),
    }
    assert_eq!(db.users.len(), 0);
}

#[test]
fn login_unknown_username_fails() {
    let db = Database::new();
    let mut sessions = SessionStore::new();
    let body = LoginUserSchema { username: "ghost".to_string(), password: "password1".to_string() };
    let e = login_handler(&db, &mut sessions, 7, &body).unwrap_err();
    expect_single_fail(&e, "username", "user does not exist");
    assert_eq!(sessions.entries.len(), 0);
}

#[test]
fn login_wrong_password_fails() {
    let mut db = Database::new();
    register_handler(&mut db, &register_body("alice", "a@x.co", "password1")).unwrap();
    let mut sessions = SessionStore::new();
    let body = LoginUserSchema { username: "alice".to_string(), password: "password2".to_string() };
    let e = login_handler(&db, &mut sessions, 7, &body).unwrap_err();
    expect_single_fail(&e, "password", "password is incorrect");
    assert_eq!(sessions.entries.len(), 0);
}

#[test]
fn login_right_password_binds_session() {
    let mut db = Database::new();
    register_handler(&mut db, &register_body("alice", "a@x.co", "password1")).unwrap();
    let mut sessions = SessionStore::new();
    let body = LoginUserSchema { username: "alice".to_string(), password: "password1".to_string() };
    let r = login_handler(&db, &mut sessions, 7, &body).unwrap();
    assert!(matches!(r.status, Status::Success));
    match r.data {
        Some(ResponseData::Username(n)) => assert_eq!(n, "alice"),
        _ => panic!("expected the username payload"),
    }
    assert_eq!(sessions.get(7), Some(db.users[0].id));
}

#[test]
fn auth_resolves_bound_token() {
    let mut db = Database::new();
    register_handler(&mut db, &register_body("alice", "a@x.co", "password1")).unwrap();
    let mut sessions = SessionStore::new();
    let body = LoginUserSchema { username: "alice".to_string(), password: "password1".to_string() };
    login_handler(&db, &mut sessions, 7, &body).unwrap();
    let user = auth(&db, &sessions, 7).unwrap();
    assert_eq!(user.username, "alice");
    let status = status_handler(user).unwrap();
    match status.data {
        Some(ResponseData::AuthStatus { is_logged_in, username }) => {
            assert!(is_logged_in);
            assert_eq!(username, "alice");
        },
        _ => panic!("expected the status payload"),
    }
}

#[test]
fn auth_rejects_unbound_token() {
    let db = Database::new();
    let sessions = SessionStore::new();
    let e = auth(&db, &sessions, 7).unwrap_err();
    match e {
        AppError::JsendFail(v) => {
            assert_eq!(v.len(), 1);
            assert_eq!(v[0].field, "authentication");
            assert_eq!(v[0].message, "user is not authenticated");
        },
        _ => panic!("expected a business fail"),
    }
}

#[test]
fn auth_rejects_token_of_vanished_account() {
    let db = Database::new();
    let mut sessions = SessionStore::new();
    sessions.insert(7, 999);
    let e = auth(&db, &sessions, 7).unwrap_err();
    match e {
        AppError::JsendFail(v) => assert_eq!(v[0].message, "user is not authenticated"),
        _ => panic!("expected a business fail"),
    }
}

#[test]
fn logout_twice_never_errors() {
    let mut db = Database::new();
    register_handler(&mut db, &register_body("alice", "a@x.co", "password1")).unwrap();
    let mut sessions = SessionStore::new();
    let body = LoginUserSchema { username: "alice".to_string(), password: "password1".to_string() };
    login_handler(&db, &mut sessions, 7, &body).unwrap();
    let first = logout_handler(&mut sessions, 7);
    assert!(first.is_ok());
    assert_eq!(sessions.get(7), None);
    let second = logout_handler(&mut sessions, 7);
    assert!(second.is_ok());
    assert_eq!(sessions.get(7), None);
}
