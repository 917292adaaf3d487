//! Record shapes of the persisted entities and of the per-endpoint
//! response rows.
//!
//! Identifiers are 128-bit values (the wire form is a UUID string; the
//! application converts at its edge). Creation stamps are ticks of the
//! store's logical clock: a later insert always carries a larger stamp.

use vstd::prelude::*;

verus! {

/// A registered account. The password field holds the salted hash in PHC
/// string form, never a plain password.
#[derive(Debug, Clone)]
pub struct UserModel {
    pub id: u128,
    pub username: String,
    pub email: String,
    pub password: String,
    pub role: String,
}

/// The one-to-one companion of a user: avatar file name and bio text.
#[derive(Debug, Clone)]
pub struct ProfileModel {
    pub id: u128,
    pub user_id: u128,
    pub profile_image: String,
    pub bio: String,
}

/// A post owned by a user.
#[derive(Debug, Clone)]
pub struct PostModel {
    pub id: u128,
    pub user_id: u128,
    pub title: String,
    pub content: String,
    pub created_at: u64,
    pub updated_at: u64,
}

/// A comment by a user on a post.
#[derive(Debug, Clone)]
pub struct CommentModel {
    pub id: u128,
    pub user_id: u128,
    pub post_id: u128,
    pub content: String,
    pub created_at: u64,
    pub updated_at: u64,
}

/// One user's like (`true`) or dislike (`false`) of one post. The store
/// keeps at most one reaction per (user, post) pair.
#[derive(Debug, Clone, Copy, PartialEq, Eq, Structural)]
pub struct ReactionModel {
    pub id: u128,
    pub user_id: u128,
    pub post_id: u128,
    pub reaction_type: bool,
}

/// A post row as the read endpoints serve it: joined with its author's
/// username and avatar, and with the aggregated reaction counts.
#[derive(Debug, Clone)]
pub struct PostResponse {
    pub id: u128,
    pub user_id: u128,
    pub username: String,
    pub profile_image: String,
    pub title: String,
    pub content: String,
    pub likes: u64,
    pub dislikes: u64,
    pub created_at: u64,
    pub updated_at: u64,
}

/// A comment row joined with its author's username and avatar.
#[derive(Debug, Clone)]
pub struct CommentResponse {
    pub id: u128,
    pub username: String,
    pub profile_image: String,
    pub user_id: u128,
    pub post_id: u128,
    pub content: String,
    pub created_at: u64,
    pub updated_at: u64,
}

/// The public directory row: one per profile, joined with the username.
#[derive(Debug, Clone)]
pub struct ProfileResponse {
    pub profile_id: u128,
    pub username: String,
    pub profile_image: String,
}

} // verus!
