use postboard::auth_handlers::register_handler;
use postboard::model::UserModel;
use postboard::post_handlers::{create_post, delete_post, get_all_posts, get_post, react_to_post};
use postboard::response::{AppError, ResponseData, Status};
use postboard::schema::{PostSchema, ReactPostSchema, RegisterUserSchema};
use postboard::store::Database;

fn seeded_user(db: &mut Database, name: &str, email: &str) -> UserModel {
    let body = RegisterUserSchema {
        username: name.to_string(),
        email: email.to_string(),
        password: "password1".to_string(),
    };
    register_handler(db, &body).unwrap();
    db.users.last().unwrap().clone()
}

fn uuid_text(id: u128) -> String {
    uuid::Uuid::from_u128(id).to_string()
}

fn expect_single_fail(e: &AppError, field: &str, message: &str) {
    match e {
        AppError::JsendFail(v) => {
            assert_eq!(v.len(), 1);
            assert_eq!(v[0].field, field);
            assert_eq!(v[0].message, message);
        },
        _ => panic!("expected a business fail"),
    }
}

#[test]
fn create_post_appends_owned_post() {
    let mut db = Database::new();
    let user = seeded_user(&mut db, "alice", "a@x.co");
    let body = PostSchema { title: "hello".to_string(), content: "first post".to_string() };
    let r = create_post(&mut db, &user, &body).unwrap();
    assert!(matches!(r.status, Status::Success));
    assert_eq!(db.posts.len(), 1);
    assert_eq!(db.posts[0].user_id, user.id);
    assert_eq!(db.posts[0].title, "hello");
    assert_eq!(db.posts[0].content, "first post");
}

#[test]
fn create_post_rejects_bad_title() {
    let mut db = Database::new();
    let user = seeded_user(&mut db, "alice", "a@x.co");
    let body = PostSchema { title: "t".to_string(), content: "fine".to_string() };
    let e = create_post(&mut db, &user, &body).unwrap_err();
    match e {
        AppError::ValidationError(v) => assert_eq!(v[0].message, "title cannot be empty"),
        _ => panic!("expected a validation error"),
    }
    assert_eq!(db.posts.len(), 0);
}

#[test]
fn get_post_rejects_malformed_uuid() {
    let db = Database::new();
    let e = get_post(&db, "not-a-uuid").unwrap_err();
    expect_single_fail(&e, "post_id", "not a valid UUID");
}

#[test]
fn get_post_reports_missing_post() {
    let db = Database::new();
    let e = get_post(&db, &uuid_text(42)).unwrap_err();
    expect_single_fail(&e, "post", "post doesnt exist");
}

#[test]
fn get_post_joins_author_and_counts() {
    let mut db = Database::new();
    let user = seeded_user(&mut db, "alice", "a@x.co");
    let body = PostSchema { title: "hello".to_string(), content: "first post".to_string() };
    create_post(&mut db, &user, &body).unwrap();
    let pid = db.posts[0].id;
    let r = get_post(&db, &uuid_text(pid)).unwrap();
    match r.data {
        Some(ResponseData::Post(p)) => {
            assert_eq!(p.id, pid);
            assert_eq!(p.username, "alice");
            assert_eq!(p.profile_image, "default.jpg");
            assert_eq!(p.title, "hello");
            assert_eq!(p.likes, 0);
            assert_eq!(p.dislikes, 0);
        },
        _ => panic!("expected the post payload"),
    }
}

#[test]
fn get_all_posts_lists_newest_first() {
    let mut db = Database::new();
    let user = seeded_user(&mut db, "alice", "a@x.co");
    create_post(&mut db, &user, &PostSchema { title: "first".to_string(), content: "one".to_string() }).unwrap();
    create_post(&mut db, &user, &PostSchema { title: "second".to_string(), content: "two".to_string() }).unwrap();
    let r = get_all_posts(&db).unwrap();
    match r.data {
        Some(ResponseData::Posts(list)) => {
            assert_eq!(list.len(), 2);
            assert_eq!(list[0].title, "second");
            assert_eq!(list[1].title, "first");
        },
        _ => panic!("expected the posts payload"),
    }
}

#[test]
fn opposite_reactions_keep_only_the_latest() {
    let mut db = Database::new();
    let user = seeded_user(&mut db, "alice", "a@x.co");
    create_post(&mut db, &user, &PostSchema { title: "hello".to_string(), content: "body".to_string() }).unwrap();
    let pid = db.posts[0].id;
    let like = ReactPostSchema { is_like: true };
    let dislike = ReactPostSchema { is_like: false };
    let r1 = react_to_post(&mut db, &user, &uuid_text(pid), &like).unwrap();
    match r1.data {
        Some(ResponseData::ReactionCounts { post_id, like_count, dislike_count }) => {
            assert_eq!(post_id, pid);
            assert_eq!(like_count, 1);
            assert_eq!(dislike_count, 0);
        },
        _ => panic!("expected the counts payload"),
    }
    let r2 = react_to_post(&mut db, &user, &uuid_text(pid), &dislike).unwrap();
    match r2.data {
        Some(ResponseData::ReactionCounts { like_count, dislike_count, .. }) => {
            assert_eq!(like_count, 0);
            assert_eq!(dislike_count, 1);
        },
        _ => panic!("expected the counts payload"),
    }
    assert_eq!(db.reactions.len(), 1);
    assert!(!db.reactions[0].reaction_type);
}

#[test]
fn reactions_of_two_users_are_counted_separately() {
    let mut db = Database::new();
    let alice = seeded_user(&mut db, "alice", "a@x.co");
    let bob = seeded_user(&mut db, "bob", "b@x.co");
    create_post(&mut db, &alice, &PostSchema { title: "hello".to_string(), content: "body".to_string() }).unwrap();
    let pid = db.posts[0].id;
    react_to_post(&mut db, &alice, &uuid_text(pid), &ReactPostSchema { is_like: true }).unwrap();
    let r = react_to_post(&mut db, &bob, &uuid_text(pid), &ReactPostSchema { is_like: true }).unwrap();
    match r.data {
        Some(ResponseData::ReactionCounts { like_count, dislike_count, .. }) => {
            assert_eq!(like_count, 2);
            assert_eq!(dislike_count, 0);
        },
        _ => panic!("expected the counts payload"),
    }
}

#[test]
fn delete_by_non_owner_is_refused_and_post_stays() {
    let mut db = Database::new();
    let alice = seeded_user(&mut db, "alice", "a@x.co");
    let bob = seeded_user(&mut db, "bob", "b@x.co");
    create_post(&mut db, &alice, &PostSchema { title: "hello".to_string(), content: "body".to_string() }).unwrap();
    let pid = db.posts[0].id;
    let e = delete_post(&mut db, &bob, &uuid_text(pid)).unwrap_err();
    expect_single_fail(&e, "authorization", "user not authorized to delete this");
    let listing = get_all_posts(&db).unwrap();
    match listing.data {
        Some(ResponseData::Posts(list)) => assert_eq!(list.len(), 1),
        _ => panic!("expected the posts payload"),
    }
}

#[test]
fn delete_by_owner_removes_post() {
    let mut db = Database::new();
    let alice = seeded_user(&mut db, "alice", "a@x.co");
    create_post(&mut db, &alice, &PostSchema { title: "hello".to_string(), content: "body".to_string() }).unwrap();
    let pid = db.posts[0].id;
    let r = delete_post(&mut db, &alice, &uuid_text(pid)).unwrap();
    assert!(matches!(r.status, Status::Success));
    assert_eq!(db.posts.len(), 0);
    let e = get_post(&db, &uuid_text(pid)).unwrap_err();
    expect_single_fail(&e, "post", "post doesnt exist");
}

#[test]
fn react_to_missing_post_is_a_server_fault() {
    let mut db = Database::new();
    let alice = seeded_user(&mut db, "alice", "a@x.co");
    let e = react_to_post(&mut db, &alice, &uuid_text(4242), &ReactPostSchema { is_like: true }).unwrap_err();
    assert!(matches!(e, AppError::InternalServerError));
    assert_eq!(db.reactions.len(), 0);
}

#[test]
fn delete_by_owner_removes_reactions_and_comments_too() {
    let mut db = Database::new();
    let alice = seeded_user(&mut db, "alice", "a@x.co");
    create_post(&mut db, &alice, &PostSchema { title: "hello".to_string(), content: "body".to_string() }).unwrap();
    create_post(&mut db, &alice, &PostSchema { title: "other".to_string(), content: "body".to_string() }).unwrap();
    let pid = db.posts[0].id;
    let other = db.posts[1].id;
    react_to_post(&mut db, &alice, &uuid_text(pid), &ReactPostSchema { is_like: true }).unwrap();
    react_to_post(&mut db, &alice, &uuid_text(other), &ReactPostSchema { is_like: false }).unwrap();
    delete_post(&mut db, &alice, &uuid_text(pid)).unwrap();
    assert_eq!(db.posts.len(), 1);
    assert_eq!(db.reactions.len(), 1);
    assert_eq!(db.reactions[0].post_id, other);
}

#[test]
fn delete_missing_post_is_reported() {
    let mut db = Database::new();
    let alice = seeded_user(&mut db, "alice", "a@x.co");
    let e = delete_post(&mut db, &alice, &uuid_text(4242)).unwrap_err();
    expect_single_fail(&e, "post", "post does not exist");
}
