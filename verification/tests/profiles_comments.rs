use postboard::auth_handlers::register_handler;
use postboard::comment_handlers::{create_comment_handler, get_comments_handler};
use postboard::model::UserModel;
use postboard::post_handlers::{create_post, delete_post};
use postboard::profile_handlers::{avatar_file_name, get_profile, record_avatar};
use postboard::response::{AppError, ResponseData, Status};
use postboard::schema::{CommentSchema, PostSchema, RegisterUserSchema};
use postboard::store::Database;
use postboard::user_handlers::get_all_users;

fn seeded_user(db: &mut Database, name: &str, email: &str) -> UserModel {
    let body = RegisterUserSchema {
        username: name.to_string(),
        email: email.to_string(),
        password: "password1".to_string(),
    };
    register_handler(db, &body).unwrap();
    db.users.last().unwrap().clone()
}

fn uuid_text(id: u128) -> String {
    uuid::Uuid::from_u128(id).to_string()
}

#[test]
fn comments_reject_malformed_post_id() {
    let db = Database::new();
    let e = get_comments_handler(&db, "oops").unwrap_err();
    match e {
        AppError::JsendFail(v) => assert_eq!(v[0].message, "not a valid UUID"),
        _ => panic!("expected a business fail"),
    }
}

#[test]
fn comments_empty_for_fresh_post() {
    let mut db = Database::new();
    let user = seeded_user(&mut db, "alice", "a@x.co");
    create_post(&mut db, &user, &PostSchema { title: "hello".to_string(), content: "body".to_string() }).unwrap();
    let pid = db.posts[0].id;
    let r = get_comments_handler(&db, &uuid_text(pid)).unwrap();
    match r.data {
        Some(ResponseData::Comments(list)) => assert_eq!(list.len(), 0),
        _ => panic!("expected the comments payload"),
    }
}

#[test]
fn comments_list_newest_first_with_author_join() {
    let mut db = Database::new();
    let alice = seeded_user(&mut db, "alice", "a@x.co");
    let bob = seeded_user(&mut db, "bob", "b@x.co");
    create_post(&mut db, &alice, &PostSchema { title: "hello".to_string(), content: "body".to_string() }).unwrap();
    let pid = db.posts[0].id;
    create_comment_handler(&mut db, &alice, &uuid_text(pid), &CommentSchema { content: "first comment".to_string() }).unwrap();
    create_comment_handler(&mut db, &bob, &uuid_text(pid), &CommentSchema { content: "second comment".to_string() }).unwrap();
    let r = get_comments_handler(&db, &uuid_text(pid)).unwrap();
    match r.data {
        Some(ResponseData::Comments(list)) => {
            assert_eq!(list.len(), 2);
            assert_eq!(list[0].content, "second comment");
            assert_eq!(list[0].username, "bob");
            assert_eq!(list[0].profile_image, "default.jpg");
            assert_eq!(list[1].content, "first comment");
            assert_eq!(list[1].username, "alice");
        },
        _ => panic!("expected the comments payload"),
    }
}

#[test]
fn comment_with_empty_content_is_rejected() {
    let mut db = Database::new();
    let alice = seeded_user(&mut db, "alice", "a@x.co");
    create_post(&mut db, &alice, &PostSchema { title: "hello".to_string(), content: "body".to_string() }).unwrap();
    let pid = db.posts[0].id;
    let e = create_comment_handler(&mut db, &alice, &uuid_text(pid), &CommentSchema { content: "".to_string() }).unwrap_err();
    match e {
        AppError::ValidationError(v) => assert_eq!(v[0].message, "content cannot be empty"),
        _ => panic!("expected a validation error"),
    }
    assert_eq!(db.comments.len(), 0);
}

#[test]
fn deleting_a_post_removes_its_comments() {
    let mut db = Database::new();
    let alice = seeded_user(&mut db, "alice", "a@x.co");
    create_post(&mut db, &alice, &PostSchema { title: "hello".to_string(), content: "body".to_string() }).unwrap();
    let pid = db.posts[0].id;
    create_comment_handler(&mut db, &alice, &uuid_text(pid), &CommentSchema { content: "a comment".to_string() }).unwrap();
    assert_eq!(db.comments.len(), 1);
    delete_post(&mut db, &alice, &uuid_text(pid)).unwrap();
    assert_eq!(db.comments.len(), 0);
    let r = get_comments_handler(&db, &uuid_text(pid)).unwrap();
    match r.data {
        Some(ResponseData::Comments(list)) => assert_eq!(list.len(), 0),
        _ => panic!("expected the comments payload"),
    }
}

#[test]
fn get_profile_serves_known_user() {
    let mut db = Database::new();
    let alice = seeded_user(&mut db, "alice", "a@x.co");
    let r = get_profile(&db, "alice").unwrap();
    assert!(matches!(r.status, Status::Success));
    match r.data {
        Some(ResponseData::Profile(p)) => {
            assert_eq!(p.user_id, alice.id);
            assert_eq!(p.profile_image, "default.jpg");
            assert_eq!(p.bio, "");
        },
        _ => panic!("expected the profile payload"),
    }
}

#[test]
fn get_profile_reports_unknown_user_as_fail() {
    let db = Database::new();
    let e = get_profile(&db, "ghost").unwrap_err();
    match e {
        AppError::JsendFail(v) => {
            assert_eq!(v.len(), 1);
            assert_eq!(v[0].field, "username");
            assert_eq!(v[0].message, "User not found");
        },
        _ => panic!("expected a business fail"),
    }
}

#[test]
fn comment_on_missing_post_is_a_server_fault() {
    let mut db = Database::new();
    let alice = seeded_user(&mut db, "alice", "a@x.co");
    let e = create_comment_handler(&mut db, &alice, &uuid_text(4242), &CommentSchema { content: "hello there".to_string() }).unwrap_err();
    assert!(matches!(e, AppError::InternalServerError));
    assert_eq!(db.comments.len(), 0);
}

#[test]
fn avatar_name_is_uuid_and_extension() {
    let n = avatar_file_name(1, Some("image/png")).unwrap();
    assert_eq!(n, "00000000-0000-0000-0000-000000000001.png");
    let n = avatar_file_name(1, Some("image/jpeg")).unwrap();
    assert_eq!(n, "00000000-0000-0000-0000-000000000001.jpg");
}

#[test]
fn avatar_rejects_missing_and_unsupported_types() {
    match avatar_file_name(1, None).unwrap_err() {
        AppError::JsendError(m) => assert_eq!(m, "invalid content-type"),
        _ => panic!("expected a bare error"),
    }
    match avatar_file_name(1, Some("image/gif")).unwrap_err() {
        AppError::JsendError(m) => assert_eq!(m, "Unsupported file type"),
        _ => panic!("expected a bare error"),
    }
}

#[test]
fn record_avatar_updates_profile_row() {
    let mut db = Database::new();
    let alice = seeded_user(&mut db, "alice", "a@x.co");
    let name = avatar_file_name(alice.id, Some("image/png")).unwrap();
    let r = record_avatar(&mut db, alice.id, &name);
    assert!(matches!(r.status, Status::Success));
    assert_eq!(db.profiles[0].profile_image, name);
    assert_eq!(db.profiles[0].bio, "");
}

#[test]
fn get_all_users_joins_usernames() {
    let mut db = Database::new();
    seeded_user(&mut db, "alice", "a@x.co");
    seeded_user(&mut db, "bob", "b@x.co");
    let r = get_all_users(&db).unwrap();
    match r.data {
        Some(ResponseData::Users(list)) => {
            assert_eq!(list.len(), 2);
            assert_eq!(list[0].username, "alice");
            assert_eq!(list[0].profile_image, "default.jpg");
            assert_eq!(list[1].username, "bob");
        },
        _ => panic!("expected the users payload"),
    }
}
