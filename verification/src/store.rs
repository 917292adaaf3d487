//! The in-memory model of the relational store.
//!
//! It keeps the five entity tables as sequences together with the rules
//! the schema enforces: usernames, emails and identifiers are unique;
//! every user has exactly one profile; every post and comment belongs to
//! an existing user; a (user, post) pair carries at most one reaction;
//! and creation stamps grow strictly along each table, so "newest first"
//! is exactly reverse insertion order. Identifiers come from one shared
//! counter, timestamps from a logical clock.

use vstd::prelude::*;
use crate::model::{
    CommentModel, CommentResponse, PostModel, PostResponse, ProfileModel, ProfileResponse,
    ReactionModel, UserModel,
};
use crate::text::str_eq;

verus! {

/// Some user in `users` carries this username.
pub open spec fn has_username(users: Seq<UserModel>, name: Seq<char>) -> bool {
    exists|i: int| 0 <= i < users.len() && (#[trigger] users[i]).username@ == name
}

/// Some user in `users` carries this email.
pub open spec fn has_email(users: Seq<UserModel>, email: Seq<char>) -> bool {
    exists|i: int| 0 <= i < users.len() && (#[trigger] users[i]).email@ == email
}

/// Some user in `users` carries this identifier.
pub open spec fn has_user_id(users: Seq<UserModel>, id: u128) -> bool {
    exists|i: int| 0 <= i < users.len() && (#[trigger] users[i]).id == id
}

/// Some profile in `profiles` belongs to this user.
pub open spec fn has_profile_for(profiles: Seq<ProfileModel>, user_id: u128) -> bool {
    exists|i: int| 0 <= i < profiles.len() && (#[trigger] profiles[i]).user_id == user_id
}

/// Some post in `posts` carries this identifier.
pub open spec fn has_post_id(posts: Seq<PostModel>, id: u128) -> bool {
    exists|i: int| 0 <= i < posts.len() && (#[trigger] posts[i]).id == id
}

/// Some reaction in `reactions` was made by this user on this post.
pub open spec fn has_reaction_by(reactions: Seq<ReactionModel>, user_id: u128, post_id: u128) -> bool {
    exists|i: int| 0 <= i < reactions.len()
        && (#[trigger] reactions[i]).user_id == user_id && reactions[i].post_id == post_id
}

/// The user carrying this username, if any (first match; under the
/// store's rules at most one user matches).
pub open spec fn user_with_username(users: Seq<UserModel>, name: Seq<char>) -> Option<UserModel>
    decreases users.len(),
{
    if users.len() == 0 {
        None
    } else if users[0].username@ == name {
        Some(users[0])
    } else {
        user_with_username(users.drop_first(), name)
    }
}

proof fn lemma_user_with_username_at(users: Seq<UserModel>, name: Seq<char>, i: int)
    requires
        0 <= i < users.len(),
        forall|j: int| 0 <= j < i ==> (#[trigger] users[j]).username@ != name,
        users[i].username@ == name,
    ensures
        user_with_username(users, name) == Some(users[i]),
    decreases i,
{
    if i > 0 {
        lemma_user_with_username_at(users.drop_first(), name, i - 1);
    }
}

proof fn lemma_user_with_username_absent(users: Seq<UserModel>, name: Seq<char>)
    requires
        forall|j: int| 0 <= j < users.len() ==> (#[trigger] users[j]).username@ != name,
    ensures
        user_with_username(users, name) is None,
    decreases users.len(),
{
    if users.len() > 0 {
        lemma_user_with_username_absent(users.drop_first(), name);
    }
}

/// The owner of the post carrying this identifier, if any (first match;
/// under the store's rules at most one post matches).
pub open spec fn post_owner_of(posts: Seq<PostModel>, post_id: u128) -> Option<u128>
    decreases posts.len(),
{
    if posts.len() == 0 {
        None
    } else if posts[0].id == post_id {
        Some(posts[0].user_id)
    } else {
        post_owner_of(posts.drop_first(), post_id)
    }
}

proof fn lemma_post_owner_at(posts: Seq<PostModel>, post_id: u128, i: int)
    requires
        0 <= i < posts.len(),
        forall|j: int| 0 <= j < i ==> (#[trigger] posts[j]).id != post_id,
        posts[i].id == post_id,
    ensures
        post_owner_of(posts, post_id) == Some(posts[i].user_id),
    decreases i,
{
    if i > 0 {
        lemma_post_owner_at(posts.drop_first(), post_id, i - 1);
    }
}

proof fn lemma_post_owner_absent(posts: Seq<PostModel>, post_id: u128)
    requires
        forall|j: int| 0 <= j < posts.len() ==> (#[trigger] posts[j]).id != post_id,
    ensures
        post_owner_of(posts, post_id) is None,
    decreases posts.len(),
{
    if posts.len() > 0 {
        lemma_post_owner_absent(posts.drop_first(), post_id);
    }
}

/// Both stores hold exactly the same data.
pub open spec fn db_unchanged(a: Database, b: Database) -> bool {
    &&& a.users@ == b.users@
    &&& a.profiles@ == b.profiles@
    &&& a.posts@ == b.posts@
    &&& a.comments@ == b.comments@
    &&& a.reactions@ == b.reactions@
    &&& a.next_id == b.next_id
    &&& a.clock == b.clock
}

/// The whole data store.
#[derive(Debug, Clone)]
pub struct Database {
    pub users: Vec<UserModel>,
    pub profiles: Vec<ProfileModel>,
    pub posts: Vec<PostModel>,
    pub comments: Vec<CommentModel>,
    pub reactions: Vec<ReactionModel>,
    /// Source of every identifier; larger than every identifier in use.
    pub next_id: u128,
    /// Logical creation clock; larger than every stamp in use.
    pub clock: u64,
}

impl Database {
    /// Usernames, emails and identifiers are pairwise distinct among
    /// users, and identifiers stay below the counter.
    pub open spec fn users_wf(self) -> bool {
        &&& forall|i: int, j: int|
            #![trigger self.users@[i], self.users@[j]]
            0 <= i < j < self.users@.len() ==> self.users@[i].username@ != self.users@[j].username@
                && self.users@[i].email@ != self.users@[j].email@
                && self.users@[i].id != self.users@[j].id
        &&& forall|i: int| 0 <= i < self.users@.len() ==> (#[trigger] self.users@[i]).id < self.next_id
    }

    /// Profiles are one per user, belong to existing users, and their
    /// identifiers stay below the counter.
    pub open spec fn profiles_wf(self) -> bool {
        &&& forall|i: int, j: int|
            #![trigger self.profiles@[i], self.profiles@[j]]
            0 <= i < j < self.profiles@.len() ==> self.profiles@[i].user_id != self.profiles@[j].user_id
        &&& forall|i: int| 0 <= i < self.profiles@.len() ==> (#[trigger] self.profiles@[i]).id < self.next_id
            && self.profiles@[i].user_id < self.next_id
            && has_user_id(self.users@, self.profiles@[i].user_id)
        &&& forall|i: int| 0 <= i < self.users@.len() ==> has_profile_for(self.profiles@, (#[trigger] self.users@[i]).id)
    }

    /// Posts carry distinct identifiers below the counter, belong to
    /// existing users, and their stamps grow strictly along the table
    /// and stay below the clock.
    pub open spec fn posts_wf(self) -> bool {
        &&& forall|i: int, j: int|
            #![trigger self.posts@[i], self.posts@[j]]
            0 <= i < j < self.posts@.len() ==> self.posts@[i].id != self.posts@[j].id
                && self.posts@[i].created_at < self.posts@[j].created_at
        &&& forall|i: int| 0 <= i < self.posts@.len() ==> (#[trigger] self.posts@[i]).id < self.next_id
            && self.posts@[i].created_at < self.clock
            && has_user_id(self.users@, self.posts@[i].user_id)
    }

    /// Comments: the same rules as posts, and each belongs to an
    /// existing post.
    pub open spec fn comments_wf(self) -> bool {
        &&& forall|i: int, j: int|
            #![trigger self.comments@[i], self.comments@[j]]
            0 <= i < j < self.comments@.len() ==> self.comments@[i].id != self.comments@[j].id
                && self.comments@[i].created_at < self.comments@[j].created_at
        &&& forall|i: int| 0 <= i < self.comments@.len() ==> (#[trigger] self.comments@[i]).id < self.next_id
            && self.comments@[i].created_at < self.clock
            && has_user_id(self.users@, self.comments@[i].user_id)
            && has_post_id(self.posts@, self.comments@[i].post_id)
    }

    /// Reactions: at most one per (user, post) pair, identifiers below
    /// the counter, and each belongs to an existing post.
    pub open spec fn reactions_wf(self) -> bool {
        &&& forall|i: int, j: int|
            #![trigger self.reactions@[i], self.reactions@[j]]
            0 <= i < j < self.reactions@.len()
                ==> !(self.reactions@[i].user_id == self.reactions@[j].user_id
                    && self.reactions@[i].post_id == self.reactions@[j].post_id)
        &&& forall|i: int| 0 <= i < self.reactions@.len() ==> (#[trigger] self.reactions@[i]).id < self.next_id
            && has_post_id(self.posts@, self.reactions@[i].post_id)
    }

    /// All the store's rules together.
    pub open spec fn wf(self) -> bool {
        self.users_wf() && self.profiles_wf() && self.posts_wf() && self.comments_wf()
            && self.reactions_wf()
    }

    /// An empty store.
    pub fn new() -> (db: Database)
        ensures
            db.wf(),
            db.users@.len() == 0,
            db.profiles@.len() == 0,
            db.posts@.len() == 0,
            db.comments@.len() == 0,
            db.reactions@.len() == 0,
            db.next_id == 0,
            db.clock == 0,
    {
        Database {
            users: Vec::new(),
            profiles: Vec::new(),
            posts: Vec::new(),
            comments: Vec::new(),
            reactions: Vec::new(),
            next_id: 0,
            clock: 0,
        }
    }

    /// The user row carrying this username, if any.
    pub fn find_user_by_username<'a>(&'a self, name: &str) -> (r: Option<&'a UserModel>)
        ensures
            match r {
                Some(u) => user_with_username(self.users@, name@) == Some(*u)
                    && self.users@.contains(*u) && u.username@ == name@,
                None => user_with_username(self.users@, name@) is None
                    && !has_username(self.users@, name@),
            },
    {
        let mut i: usize = 0;
        while i < self.users.len()
            invariant
                i <= self.users@.len(),
                forall|j: int| 0 <= j < i ==> (#[trigger] self.users@[j]).username@ != name@,
            decreases self.users@.len() - i,
        {
            if str_eq(self.users[i].username.as_str(), name) {
                let u = &self.users[i];
                proof {
                    assert(self.users@.contains(self.users@[i as int]));
                    lemma_user_with_username_at(self.users@, name@, i as int);
                }
                return Some(u);
            }
            i += 1;
        }
        proof {
            lemma_user_with_username_absent(self.users@, name@);
        }
        None
    }

    /// The user row carrying this identifier, if any.
    pub fn find_user_by_id<'a>(&'a self, id: u128) -> (r: Option<&'a UserModel>)
        ensures
            match r {
                Some(u) => self.users@.contains(*u) && u.id == id,
                None => !has_user_id(self.users@, id),
            },
    {
        let mut i: usize = 0;
        while i < self.users.len()
            invariant
                i <= self.users@.len(),
                forall|j: int| 0 <= j < i ==> (#[trigger] self.users@[j]).id != id,
            decreases self.users@.len() - i,
        {
            if self.users[i].id == id {
                let u = &self.users[i];
                assert(self.users@.contains(self.users@[i as int]));
                return Some(u);
            }
            i += 1;
        }
        None
    }

    /// Whether any user carries this username.
    pub fn username_exists(&self, name: &str) -> (r: bool)
        ensures
            r == has_username(self.users@, name@),
    {
        let mut i: usize = 0;
        while i < self.users.len()
            invariant
                i <= self.users@.len(),
                forall|j: int| 0 <= j < i ==> (#[trigger] self.users@[j]).username@ != name@,
            decreases self.users@.len() - i,
        {
            if str_eq(self.users[i].username.as_str(), name) {
                assert(has_username(self.users@, name@));
                return true;
            }
            i += 1;
        }
        false
    }

    /// Whether any user carries this email.
    pub fn email_exists(&self, email: &str) -> (r: bool)
        ensures
            r == has_email(self.users@, email@),
    {
        let mut i: usize = 0;
        while i < self.users.len()
            invariant
                i <= self.users@.len(),
                forall|j: int| 0 <= j < i ==> (#[trigger] self.users@[j]).email@ != email@,
            decreases self.users@.len() - i,
        {
            if str_eq(self.users[i].email.as_str(), email) {
                assert(has_email(self.users@, email@));
                return true;
            }
            i += 1;
        }
        false
    }

    /// The profile row of this user, if any.
    pub fn find_profile_by_user<'a>(&'a self, user_id: u128) -> (r: Option<&'a ProfileModel>)
        ensures
            match r {
                Some(p) => self.profiles@.contains(*p) && p.user_id == user_id,
                None => !has_profile_for(self.profiles@, user_id),
            },
    {
        let mut i: usize = 0;
        while i < self.profiles.len()
            invariant
                i <= self.profiles@.len(),
                forall|j: int| 0 <= j < i ==> (#[trigger] self.profiles@[j]).user_id != user_id,
            decreases self.profiles@.len() - i,
        {
            if self.profiles[i].user_id == user_id {
                let p = &self.profiles[i];
                assert(self.profiles@.contains(self.profiles@[i as int]));
                return Some(p);
            }
            i += 1;
        }
        None
    }

    /// Creates a user together with its default profile (placeholder
    /// avatar, empty bio), as one atomic step. Returns the new user's
    /// identifier.
    pub fn insert_user_with_profile(&mut self, username: &str, email: &str, password_hash: &str) -> (id: u128)
        requires
            old(self).wf(),
            !has_username(old(self).users@, username@),
            !has_email(old(self).users@, email@),
            old(self).next_id + 1 < u128::MAX,
        ensures
            final(self).wf(),
            id == old(self).next_id,
            final(self).users@.len() == old(self).users@.len() + 1,
            final(self).users@.drop_last() == old(self).users@,
            ({
                let u = final(self).users@.last();
                u.id == id && u.username@ == username@ && u.email@ == email@
                    && u.password@ == password_hash@ && u.role@ == "user"@
            }),
            final(self).profiles@.len() == old(self).profiles@.len() + 1,
            final(self).profiles@.drop_last() == old(self).profiles@,
            ({
                let p = final(self).profiles@.last();
                p.user_id == id && p.profile_image@ == "default.jpg"@ && p.bio@ == ""@
            }),
            final(self).posts@ == old(self).posts@,
            final(self).comments@ == old(self).comments@,
            final(self).reactions@ == old(self).reactions@,
            final(self).clock == old(self).clock,
            final(self).next_id == old(self).next_id + 2,
    {
        let id = self.next_id;
        let user = UserModel {
            id,
            username: username.to_owned(),
            email: email.to_owned(),
            password: password_hash.to_owned(),
            role: "user".to_owned(),
        };
        let profile = ProfileModel {
            id: id + 1,
            user_id: id,
            profile_image: "default.jpg".to_owned(),
            bio: "".to_owned(),
        };
        self.users.push(user);
        self.profiles.push(profile);
        self.next_id = id + 2;
        proof {
            let ou = old(self).users@;
            let op = old(self).profiles@;
            let nu = self.users@;
            let np = self.profiles@;
            assert(nu.drop_last() =~= ou);
            assert(np.drop_last() =~= op);
            assert forall|i: int, j: int|
                #![trigger nu[i], nu[j]]
                0 <= i < j < nu.len() implies nu[i].username@ != nu[j].username@
                    && nu[i].email@ != nu[j].email@ && nu[i].id != nu[j].id by {
                if j == nu.len() - 1 {
                    assert(nu[i] == ou[i]);
                    if nu[i].username@ == username@ {
                        assert(has_username(ou, username@));
                    }
                    if nu[i].email@ == email@ {
                        assert(has_email(ou, email@));
                    }
                }
            }
            assert forall|i: int, j: int|
                #![trigger np[i], np[j]]
                0 <= i < j < np.len() implies np[i].user_id != np[j].user_id by {
                if j == np.len() - 1 {
                    assert(np[i] == op[i]);
                }
            }
            assert forall|i: int| 0 <= i < np.len()
                implies has_user_id(nu, (#[trigger] np[i]).user_id) by {
                if i < np.len() - 1 {
                    assert(has_user_id(ou, op[i].user_id));
                    let w = choose|k: int| 0 <= k < ou.len() && (#[trigger] ou[k]).id == op[i].user_id;
                    assert(nu[w].id == np[i].user_id);
                } else {
                    assert(nu[nu.len() - 1].id == np[i].user_id);
                }
            }
            assert forall|i: int| 0 <= i < nu.len()
                implies has_profile_for(np, (#[trigger] nu[i]).id) by {
                if i < nu.len() - 1 {
                    assert(has_profile_for(op, ou[i].id));
                    let w = choose|k: int| 0 <= k < op.len() && (#[trigger] op[k]).user_id == ou[i].id;
                    assert(np[w].user_id == nu[i].id);
                } else {
                    assert(np[np.len() - 1].user_id == nu[i].id);
                }
            }
            assert forall|i: int| 0 <= i < self.posts@.len()
                implies has_user_id(nu, (#[trigger] self.posts@[i]).user_id) by {
                assert(has_user_id(ou, self.posts@[i].user_id));
                let w = choose|k: int| 0 <= k < ou.len() && (#[trigger] ou[k]).id == self.posts@[i].user_id;
                assert(nu[w].id == self.posts@[i].user_id);
            }
            assert forall|i: int| 0 <= i < self.comments@.len()
                implies has_user_id(nu, (#[trigger] self.comments@[i]).user_id) by {
                assert(has_user_id(ou, self.comments@[i].user_id));
                let w = choose|k: int| 0 <= k < ou.len() && (#[trigger] ou[k]).id == self.comments@[i].user_id;
                assert(nu[w].id == self.comments@[i].user_id);
            }
        }
        id
    }
}

/// Number of likes among `s` for this post.
pub open spec fn like_count(s: Seq<ReactionModel>, post_id: u128) -> nat
    decreases s.len(),
{
    if s.len() == 0 {
        0
    } else {
        like_count(s.drop_last(), post_id) + if s.last().post_id == post_id && s.last().reaction_type {
            1nat
        } else {
            0nat
        }
    }
}

/// Number of dislikes among `s` for this post.
pub open spec fn dislike_count(s: Seq<ReactionModel>, post_id: u128) -> nat
    decreases s.len(),
{
    if s.len() == 0 {
        0
    } else {
        dislike_count(s.drop_last(), post_id) + if s.last().post_id == post_id && !s.last().reaction_type {
            1nat
        } else {
            0nat
        }
    }
}

/// The flag of this user's reaction to this post, if any (first match).
pub open spec fn reaction_of(s: Seq<ReactionModel>, user_id: u128, post_id: u128) -> Option<bool>
    decreases s.len(),
{
    if s.len() == 0 {
        None
    } else if s[0].user_id == user_id && s[0].post_id == post_id {
        Some(s[0].reaction_type)
    } else {
        reaction_of(s.drop_first(), user_id, post_id)
    }
}

/// The reaction table after this user reacts to this post: the first
/// existing reaction of the pair keeps its place and identifier and takes
/// the new flag; where the pair had none, a fresh row is appended.
pub open spec fn upsert_seq(s: Seq<ReactionModel>, user_id: u128, post_id: u128, is_like: bool, fresh_id: u128) -> Seq<ReactionModel>
    decreases s.len(),
{
    if s.len() == 0 {
        seq![ReactionModel { id: fresh_id, user_id, post_id, reaction_type: is_like }]
    } else if s[0].user_id == user_id && s[0].post_id == post_id {
        seq![ReactionModel { id: s[0].id, user_id: s[0].user_id, post_id: s[0].post_id, reaction_type: is_like }]
            + s.drop_first()
    } else {
        seq![s[0]] + upsert_seq(s.drop_first(), user_id, post_id, is_like, fresh_id)
    }
}

proof fn lemma_upsert_at(s: Seq<ReactionModel>, user_id: u128, post_id: u128, is_like: bool, fresh_id: u128, i: int)
    requires
        0 <= i < s.len(),
        forall|j: int| 0 <= j < i ==> !((#[trigger] s[j]).user_id == user_id && s[j].post_id == post_id),
        s[i].user_id == user_id && s[i].post_id == post_id,
    ensures
        upsert_seq(s, user_id, post_id, is_like, fresh_id) =~= s.update(
            i,
            ReactionModel { id: s[i].id, user_id: s[i].user_id, post_id: s[i].post_id, reaction_type: is_like },
        ),
    decreases s.len(),
{
    if i == 0 {
    } else {
        lemma_upsert_at(s.drop_first(), user_id, post_id, is_like, fresh_id, i - 1);
    }
}

proof fn lemma_upsert_absent(s: Seq<ReactionModel>, user_id: u128, post_id: u128, is_like: bool, fresh_id: u128)
    requires
        forall|j: int| 0 <= j < s.len() ==> !((#[trigger] s[j]).user_id == user_id && s[j].post_id == post_id),
    ensures
        upsert_seq(s, user_id, post_id, is_like, fresh_id) =~= s.push(
            ReactionModel { id: fresh_id, user_id, post_id, reaction_type: is_like },
        ),
    decreases s.len(),
{
    if s.len() == 0 {
    } else {
        lemma_upsert_absent(s.drop_first(), user_id, post_id, is_like, fresh_id);
    }
}

/// A reaction is an upsert: of two reactions by one user to one post, only
/// the latest is kept — the table after reacting twice equals the table
/// after reacting once with the latest flag, so the aggregate counts of
/// every post reflect only the latest reaction (one like or one dislike
/// for that user, never both).
pub proof fn lemma_latest_reaction_wins(
    s: Seq<ReactionModel>,
    user_id: u128,
    post_id: u128,
    first: bool,
    latest: bool,
    id1: u128,
    id2: u128,
)
    ensures
        upsert_seq(upsert_seq(s, user_id, post_id, first, id1), user_id, post_id, latest, id2)
            =~= upsert_seq(s, user_id, post_id, latest, id1),
        forall|p: u128| like_count(upsert_seq(upsert_seq(s, user_id, post_id, first, id1), user_id, post_id, latest, id2), p)
            == like_count(upsert_seq(s, user_id, post_id, latest, id1), p),
        forall|p: u128| dislike_count(upsert_seq(upsert_seq(s, user_id, post_id, first, id1), user_id, post_id, latest, id2), p)
            == dislike_count(upsert_seq(s, user_id, post_id, latest, id1), p),
    decreases s.len(),
{
    if s.len() == 0 {
    } else if s[0].user_id == user_id && s[0].post_id == post_id {
    } else {
        lemma_latest_reaction_wins(s.drop_first(), user_id, post_id, first, latest, id1, id2);
        assert(upsert_seq(s, user_id, post_id, first, id1).drop_first()
            =~= upsert_seq(s.drop_first(), user_id, post_id, first, id1));
    }
}

/// After a user reacts to a post, that user's reaction to the post is
/// exactly the flag just given.
pub proof fn lemma_upsert_sets_reaction(s: Seq<ReactionModel>, user_id: u128, post_id: u128, is_like: bool, fresh_id: u128)
    ensures
        reaction_of(upsert_seq(s, user_id, post_id, is_like, fresh_id), user_id, post_id) == Some(is_like),
    decreases s.len(),
{
    if s.len() == 0 {
    } else if s[0].user_id == user_id && s[0].post_id == post_id {
    } else {
        lemma_upsert_sets_reaction(s.drop_first(), user_id, post_id, is_like, fresh_id);
        assert(upsert_seq(s, user_id, post_id, is_like, fresh_id).drop_first()
            =~= upsert_seq(s.drop_first(), user_id, post_id, is_like, fresh_id));
    }
}

/// The reaction table with every reaction to this post removed.
pub open spec fn reactions_without(s: Seq<ReactionModel>, post_id: u128) -> Seq<ReactionModel>
    decreases s.len(),
{
    if s.len() == 0 {
        Seq::empty()
    } else if s.last().post_id == post_id {
        reactions_without(s.drop_last(), post_id)
    } else {
        reactions_without(s.drop_last(), post_id).push(s.last())
    }
}

/// The comment table with every comment on this post removed.
pub open spec fn comments_without(s: Seq<CommentModel>, post_id: u128) -> Seq<CommentModel>
    decreases s.len(),
{
    if s.len() == 0 {
        Seq::empty()
    } else if s.last().post_id == post_id {
        comments_without(s.drop_last(), post_id)
    } else {
        comments_without(s.drop_last(), post_id).push(s.last())
    }
}

proof fn lemma_reactions_without_props(s: Seq<ReactionModel>, post_id: u128)
    ensures
        forall|x: int| 0 <= x < reactions_without(s, post_id).len()
            ==> exists|j: int| 0 <= j < s.len() && (#[trigger] reactions_without(s, post_id)[x]) == s[j],
        forall|x: int| 0 <= x < reactions_without(s, post_id).len()
            ==> (#[trigger] reactions_without(s, post_id)[x]).post_id != post_id,
    decreases s.len(),
{
    if s.len() > 0 {
        let d = s.drop_last();
        lemma_reactions_without_props(d, post_id);
        assert forall|x: int| 0 <= x < reactions_without(s, post_id).len()
            implies exists|j: int| 0 <= j < s.len() && (#[trigger] reactions_without(s, post_id)[x]) == s[j] by {
            if x < reactions_without(d, post_id).len() {
                let j = choose|j: int| 0 <= j < d.len() && reactions_without(d, post_id)[x] == (#[trigger] d[j]);
                assert(reactions_without(s, post_id)[x] == s[j]);
            } else {
                assert(reactions_without(s, post_id)[x] == s[s.len() - 1]);
            }
        }
    }
}

proof fn lemma_reactions_without_unique(s: Seq<ReactionModel>, post_id: u128)
    requires
        forall|i: int, j: int|
            #![trigger s[i], s[j]]
            0 <= i < j < s.len() ==> !(s[i].user_id == s[j].user_id && s[i].post_id == s[j].post_id),
    ensures
        forall|x: int, y: int|
            #![trigger reactions_without(s, post_id)[x], reactions_without(s, post_id)[y]]
            0 <= x < y < reactions_without(s, post_id).len()
                ==> !(reactions_without(s, post_id)[x].user_id == reactions_without(s, post_id)[y].user_id
                    && reactions_without(s, post_id)[x].post_id == reactions_without(s, post_id)[y].post_id),
    decreases s.len(),
{
    if s.len() > 0 {
        let d = s.drop_last();
        lemma_reactions_without_unique(d, post_id);
        lemma_reactions_without_props(d, post_id);
        assert forall|x: int, y: int|
            #![trigger reactions_without(s, post_id)[x], reactions_without(s, post_id)[y]]
            0 <= x < y < reactions_without(s, post_id).len()
            implies !(reactions_without(s, post_id)[x].user_id == reactions_without(s, post_id)[y].user_id
                && reactions_without(s, post_id)[x].post_id == reactions_without(s, post_id)[y].post_id) by {
            if y == reactions_without(s, post_id).len() - 1 && s.last().post_id != post_id {
                let j = choose|j: int| 0 <= j < d.len() && reactions_without(d, post_id)[x] == (#[trigger] d[j]);
                assert(reactions_without(s, post_id)[x] == s[j]);
                assert(reactions_without(s, post_id)[y] == s[s.len() - 1]);
            }
        }
    }
}

proof fn lemma_comments_without_props(s: Seq<CommentModel>, post_id: u128)
    ensures
        forall|x: int| 0 <= x < comments_without(s, post_id).len()
            ==> exists|j: int| 0 <= j < s.len() && (#[trigger] comments_without(s, post_id)[x]) == s[j],
        forall|x: int| 0 <= x < comments_without(s, post_id).len()
            ==> (#[trigger] comments_without(s, post_id)[x]).post_id != post_id,
    decreases s.len(),
{
    if s.len() > 0 {
        let d = s.drop_last();
        lemma_comments_without_props(d, post_id);
        assert forall|x: int| 0 <= x < comments_without(s, post_id).len()
            implies exists|j: int| 0 <= j < s.len() && (#[trigger] comments_without(s, post_id)[x]) == s[j] by {
            if x < comments_without(d, post_id).len() {
                let j = choose|j: int| 0 <= j < d.len() && comments_without(d, post_id)[x] == (#[trigger] d[j]);
                assert(comments_without(s, post_id)[x] == s[j]);
            } else {
                assert(comments_without(s, post_id)[x] == s[s.len() - 1]);
            }
        }
    }
}

proof fn lemma_comments_without_ordered(s: Seq<CommentModel>, post_id: u128)
    requires
        forall|i: int, j: int|
            #![trigger s[i], s[j]]
            0 <= i < j < s.len() ==> s[i].id != s[j].id && s[i].created_at < s[j].created_at,
    ensures
        forall|x: int, y: int|
            #![trigger comments_without(s, post_id)[x], comments_without(s, post_id)[y]]
            0 <= x < y < comments_without(s, post_id).len()
                ==> comments_without(s, post_id)[x].id != comments_without(s, post_id)[y].id
                    && comments_without(s, post_id)[x].created_at < comments_without(s, post_id)[y].created_at,
    decreases s.len(),
{
    if s.len() > 0 {
        let d = s.drop_last();
        lemma_comments_without_ordered(d, post_id);
        lemma_comments_without_props(d, post_id);
        assert forall|x: int, y: int|
            #![trigger comments_without(s, post_id)[x], comments_without(s, post_id)[y]]
            0 <= x < y < comments_without(s, post_id).len()
            implies comments_without(s, post_id)[x].id != comments_without(s, post_id)[y].id
                && comments_without(s, post_id)[x].created_at < comments_without(s, post_id)[y].created_at by {
            if y == comments_without(s, post_id).len() - 1 && s.last().post_id != post_id {
                let j = choose|j: int| 0 <= j < d.len() && comments_without(d, post_id)[x] == (#[trigger] d[j]);
                assert(comments_without(s, post_id)[x] == s[j]);
                assert(comments_without(s, post_id)[y] == s[s.len() - 1]);
            }
        }
    }
}

impl Database {
    /// Records this user's reaction to this post: updates the pair's
    /// existing row in place, or appends a fresh one.
    pub fn upsert_reaction(&mut self, user_id: u128, post_id: u128, is_like: bool)
        requires
            old(self).wf(),
            has_post_id(old(self).posts@, post_id),
            old(self).next_id < u128::MAX,
        ensures
            final(self).wf(),
            final(self).reactions@ == upsert_seq(old(self).reactions@, user_id, post_id, is_like, old(self).next_id),
            final(self).users@ == old(self).users@,
            final(self).profiles@ == old(self).profiles@,
            final(self).posts@ == old(self).posts@,
            final(self).comments@ == old(self).comments@,
            final(self).clock == old(self).clock,
            has_reaction_by(old(self).reactions@, user_id, post_id) ==> final(self).next_id == old(self).next_id,
            !has_reaction_by(old(self).reactions@, user_id, post_id) ==> final(self).next_id == old(self).next_id + 1,
    {
        let n = self.reactions.len();
        let mut i: usize = 0;
        while i < n
            invariant
                n == self.reactions@.len(),
                i <= n,
                *self == *old(self),
                old(self).wf(),
                has_post_id(old(self).posts@, post_id),
                old(self).next_id < u128::MAX,
                forall|j: int| 0 <= j < i
                    ==> !((#[trigger] self.reactions@[j]).user_id == user_id && self.reactions@[j].post_id == post_id),
            decreases n - i,
        {
            if self.reactions[i].user_id == user_id && self.reactions[i].post_id == post_id {
                proof {
                    lemma_upsert_at(self.reactions@, user_id, post_id, is_like, self.next_id, i as int);
                }
                let prev: ReactionModel = self.reactions[i];
                let r = &mut self.reactions[i];
                *r = ReactionModel {
                    id: prev.id,
                    user_id: prev.user_id,
                    post_id: prev.post_id,
                    reaction_type: is_like,
                };
                proof {
                    let o = old(self).reactions@;
                    let nr = self.reactions@;
                    assert(nr =~= o.update(i as int, ReactionModel {
                        id: o[i as int].id,
                        user_id: o[i as int].user_id,
                        post_id: o[i as int].post_id,
                        reaction_type: is_like,
                    }));
                    assert forall|a: int, b: int|
                        #![trigger nr[a], nr[b]]
                        0 <= a < b < nr.len()
                        implies !(nr[a].user_id == nr[b].user_id && nr[a].post_id == nr[b].post_id) by {
                        assert(o[a].user_id == nr[a].user_id && o[a].post_id == nr[a].post_id);
                        assert(o[b].user_id == nr[b].user_id && o[b].post_id == nr[b].post_id);
                    }
                    assert forall|a: int| 0 <= a < nr.len() implies (#[trigger] nr[a]).id < self.next_id
                        && has_post_id(self.posts@, nr[a].post_id) by {
                        assert(nr[a].id == o[a].id && nr[a].post_id == o[a].post_id);
                    }
                }
                return ;
            }
            i += 1;
        }
        proof {
            lemma_upsert_absent(self.reactions@, user_id, post_id, is_like, self.next_id);
        }
        let fresh = ReactionModel { id: self.next_id, user_id, post_id, reaction_type: is_like };
        self.reactions.push(fresh);
        self.next_id = self.next_id + 1;
    }

    /// The aggregate (likes, dislikes) of one post.
    pub fn count_reactions(&self, post_id: u128) -> (r: (u64, u64))
        ensures
            r.0 == like_count(self.reactions@, post_id),
            r.1 == dislike_count(self.reactions@, post_id),
    {
        let n = self.reactions.len();
        let mut likes: u64 = 0;
        let mut dislikes: u64 = 0;
        let mut i: usize = 0;
        while i < n
            invariant
                n == self.reactions@.len(),
                i <= n,
                likes as nat == like_count(self.reactions@.take(i as int), post_id),
                dislikes as nat == dislike_count(self.reactions@.take(i as int), post_id),
                likes as int <= i as int,
                dislikes as int <= i as int,
            decreases n - i,
        {
            proof {
                assert(self.reactions@.take(i as int + 1).drop_last() =~= self.reactions@.take(i as int));
                assert(self.reactions@.take(i as int + 1).last() == self.reactions@[i as int]);
            }
            if self.reactions[i].post_id == post_id {
                if self.reactions[i].reaction_type {
                    likes = likes + 1;
                } else {
                    dislikes = dislikes + 1;
                }
            }
            i += 1;
        }
        proof {
            assert(self.reactions@.take(n as int) =~= self.reactions@);
        }
        (likes, dislikes)
    }

    /// Creates a post owned by this user, stamped with the current clock
    /// tick.
    pub fn insert_post(&mut self, user_id: u128, title: &str, content: &str)
        requires
            old(self).wf(),
            has_user_id(old(self).users@, user_id),
            old(self).next_id < u128::MAX,
            old(self).clock < u64::MAX,
        ensures
            final(self).wf(),
            final(self).posts@.len() == old(self).posts@.len() + 1,
            final(self).posts@.drop_last() == old(self).posts@,
            ({
                let p = final(self).posts@.last();
                p.id == old(self).next_id && p.user_id == user_id && p.title@ == title@
                    && p.content@ == content@ && p.created_at == old(self).clock
                    && p.updated_at == old(self).clock
            }),
            final(self).users@ == old(self).users@,
            final(self).profiles@ == old(self).profiles@,
            final(self).comments@ == old(self).comments@,
            final(self).reactions@ == old(self).reactions@,
            final(self).next_id == old(self).next_id + 1,
            final(self).clock == old(self).clock + 1,
    {
        let post = PostModel {
            id: self.next_id,
            user_id,
            title: title.to_owned(),
            content: content.to_owned(),
            created_at: self.clock,
            updated_at: self.clock,
        };
        self.posts.push(post);
        self.next_id = self.next_id + 1;
        self.clock = self.clock + 1;
        proof {
            let op = old(self).posts@;
            let np = self.posts@;
            assert(np.drop_last() =~= op);
            assert forall|i: int, j: int|
                #![trigger np[i], np[j]]
                0 <= i < j < np.len() implies np[i].id != np[j].id
                    && np[i].created_at < np[j].created_at by {
                if j < np.len() - 1 {
                    assert(np[i] == op[i] && np[j] == op[j]);
                } else if i < np.len() - 1 {
                    assert(np[i] == op[i]);
                }
            }
            assert forall|i: int| 0 <= i < np.len() implies (#[trigger] np[i]).id < self.next_id
                && np[i].created_at < self.clock
                && has_user_id(self.users@, np[i].user_id) by {
                if i < np.len() - 1 {
                    assert(np[i] == op[i]);
                }
            }
            assert forall|i: int| 0 <= i < self.comments@.len()
                implies has_post_id(np, (#[trigger] self.comments@[i]).post_id) by {
                assert(has_post_id(op, self.comments@[i].post_id));
                let w = choose|k: int| 0 <= k < op.len() && (#[trigger] op[k]).id == self.comments@[i].post_id;
                assert(np[w].id == self.comments@[i].post_id);
            }
            assert forall|i: int| 0 <= i < self.reactions@.len()
                implies has_post_id(np, (#[trigger] self.reactions@[i]).post_id) by {
                assert(has_post_id(op, self.reactions@[i].post_id));
                let w = choose|k: int| 0 <= k < op.len() && (#[trigger] op[k]).id == self.reactions@[i].post_id;
                assert(np[w].id == self.reactions@[i].post_id);
            }
        }
    }

    /// The post row carrying this identifier, if any.
    pub fn find_post_by_id<'a>(&'a self, post_id: u128) -> (r: Option<&'a PostModel>)
        ensures
            match r {
                Some(p) => self.posts@.contains(*p) && p.id == post_id,
                None => !has_post_id(self.posts@, post_id),
            },
    {
        let mut i: usize = 0;
        while i < self.posts.len()
            invariant
                i <= self.posts@.len(),
                forall|j: int| 0 <= j < i ==> (#[trigger] self.posts@[j]).id != post_id,
            decreases self.posts@.len() - i,
        {
            if self.posts[i].id == post_id {
                let p = &self.posts[i];
                assert(self.posts@.contains(self.posts@[i as int]));
                return Some(p);
            }
            i += 1;
        }
        None
    }

    /// The owner of the post carrying this identifier, if the post
    /// exists.
    pub fn post_owner(&self, post_id: u128) -> (r: Option<u128>)
        requires
            self.wf(),
        ensures
            r == post_owner_of(self.posts@, post_id),
            r is Some <==> has_post_id(self.posts@, post_id),
    {
        let n = self.posts.len();
        let mut i: usize = 0;
        while i < n
            invariant
                n == self.posts@.len(),
                i <= n,
                forall|j: int| 0 <= j < i ==> (#[trigger] self.posts@[j]).id != post_id,
            decreases n - i,
        {
            if self.posts[i].id == post_id {
                proof {
                    lemma_post_owner_at(self.posts@, post_id, i as int);
                    assert(has_post_id(self.posts@, post_id));
                }
                return Some(self.posts[i].user_id);
            }
            i += 1;
        }
        proof {
            lemma_post_owner_absent(self.posts@, post_id);
        }
        None
    }

    /// Deletes the post carrying this identifier, if any, together with
    /// the comments and reactions that belong to it (they belong to an
    /// existing post, so they go with it); every other row of every
    /// table stays.
    pub fn delete_post(&mut self, post_id: u128)
        requires
            old(self).wf(),
        ensures
            final(self).wf(),
            !has_post_id(final(self).posts@, post_id),
            !has_post_id(old(self).posts@, post_id) ==> final(self).posts@ == old(self).posts@
                && final(self).comments@ == old(self).comments@
                && final(self).reactions@ == old(self).reactions@,
            has_post_id(old(self).posts@, post_id) ==> (exists|k: int|
                0 <= k < old(self).posts@.len() && (#[trigger] old(self).posts@[k]).id == post_id
                    && final(self).posts@ == old(self).posts@.remove(k))
                && final(self).comments@ == comments_without(old(self).comments@, post_id)
                && final(self).reactions@ == reactions_without(old(self).reactions@, post_id),
            final(self).users@ == old(self).users@,
            final(self).profiles@ == old(self).profiles@,
            final(self).next_id == old(self).next_id,
            final(self).clock == old(self).clock,
    {
        let n = self.posts.len();
        let mut i: usize = 0;
        while i < n
            invariant
                n == self.posts@.len(),
                i <= n,
                *self == *old(self),
                old(self).wf(),
                forall|j: int| 0 <= j < i ==> (#[trigger] self.posts@[j]).id != post_id,
            decreases n - i,
        {
            if self.posts[i].id == post_id {
                let rn = self.reactions.len();
                let mut kept_r: Vec<ReactionModel> = Vec::new();
                let mut a: usize = 0;
                while a < rn
                    invariant
                        rn == self.reactions@.len(),
                        a <= rn,
                        *self == *old(self),
                        kept_r@ == reactions_without(self.reactions@.take(a as int), post_id),
                    decreases rn - a,
                {
                    proof {
                        assert(self.reactions@.take(a as int + 1).drop_last()
                            =~= self.reactions@.take(a as int));
                        assert(self.reactions@.take(a as int + 1).last() == self.reactions@[a as int]);
                    }
                    if self.reactions[a].post_id != post_id {
                        kept_r.push(self.reactions[a]);
                    }
                    a += 1;
                }
                proof {
                    assert(self.reactions@.take(rn as int) =~= self.reactions@);
                }
                let cn = self.comments.len();
                let mut kept_c: Vec<CommentModel> = Vec::new();
                let mut b: usize = 0;
                while b < cn
                    invariant
                        cn == self.comments@.len(),
                        b <= cn,
                        *self == *old(self),
                        kept_c@ == comments_without(self.comments@.take(b as int), post_id),
                    decreases cn - b,
                {
                    proof {
                        assert(self.comments@.take(b as int + 1).drop_last()
                            =~= self.comments@.take(b as int));
                        assert(self.comments@.take(b as int + 1).last() == self.comments@[b as int]);
                    }
                    if self.comments[b].post_id != post_id {
                        let c = &self.comments[b];
                        kept_c.push(CommentModel {
                            id: c.id,
                            user_id: c.user_id,
                            post_id: c.post_id,
                            content: c.content.clone(),
                            created_at: c.created_at,
                            updated_at: c.updated_at,
                        });
                        proof {
                            assert(kept_c@.last() == self.comments@[b as int]);
                        }
                    }
                    b += 1;
                }
                proof {
                    assert(self.comments@.take(cn as int) =~= self.comments@);
                }
                self.posts.remove(i);
                self.reactions = kept_r;
                self.comments = kept_c;
                proof {
                    let op = old(self).posts@;
                    let np = self.posts@;
                    let or_ = old(self).reactions@;
                    let nr = self.reactions@;
                    let oc = old(self).comments@;
                    let nc = self.comments@;
                    assert forall|x: int| 0 <= x < np.len()
                        implies #[trigger] np[x] == (if x < i as int { op[x] } else { op[x + 1] }) by {
                    }
                    assert forall|x: int, y: int|
                        #![trigger np[x], np[y]]
                        0 <= x < y < np.len() implies np[x].id != np[y].id
                            && np[x].created_at < np[y].created_at by {
                    }
                    assert forall|x: int| 0 <= x < np.len() implies (#[trigger] np[x]).id < self.next_id
                        && np[x].created_at < self.clock
                        && has_user_id(self.users@, np[x].user_id) by {
                    }
                    assert forall|x: int| 0 <= x < np.len() implies (#[trigger] np[x]).id != post_id by {
                        if x >= i as int {
                            assert(np[x] == op[x + 1]);
                            assert(op[i as int].id != op[x + 1].id);
                        }
                    }
                    lemma_reactions_without_props(or_, post_id);
                    lemma_reactions_without_unique(or_, post_id);
                    assert forall|x: int| 0 <= x < nr.len() implies (#[trigger] nr[x]).id < self.next_id
                        && has_post_id(np, nr[x].post_id) by {
                        let j = choose|j: int| 0 <= j < or_.len() && nr[x] == (#[trigger] or_[j]);
                        assert(has_post_id(op, or_[j].post_id));
                        let pj = choose|k: int| 0 <= k < op.len() && (#[trigger] op[k]).id == or_[j].post_id;
                        assert(nr[x].post_id != post_id);
                        assert(pj != i as int);
                        if pj < i as int {
                            assert(np[pj].id == nr[x].post_id);
                        } else {
                            assert(np[pj - 1].id == nr[x].post_id);
                        }
                    }
                    lemma_comments_without_props(oc, post_id);
                    lemma_comments_without_ordered(oc, post_id);
                    assert forall|x: int| 0 <= x < nc.len() implies (#[trigger] nc[x]).id < self.next_id
                        && nc[x].created_at < self.clock
                        && has_user_id(self.users@, nc[x].user_id)
                        && has_post_id(np, nc[x].post_id) by {
                        let j = choose|j: int| 0 <= j < oc.len() && nc[x] == (#[trigger] oc[j]);
                        assert(has_post_id(op, oc[j].post_id));
                        let pj = choose|k: int| 0 <= k < op.len() && (#[trigger] op[k]).id == oc[j].post_id;
                        assert(nc[x].post_id != post_id);
                        assert(pj != i as int);
                        if pj < i as int {
                            assert(np[pj].id == nc[x].post_id);
                        } else {
                            assert(np[pj - 1].id == nc[x].post_id);
                        }
                    }
                }
                return ;
            }
            i += 1;
        }
    }
}

/// `r` is `p` joined with its author's username and avatar and with the
/// aggregate reaction counts of the store.
pub open spec fn is_post_response_for(db: Database, p: PostModel, r: PostResponse) -> bool {
    &&& r.id == p.id
    &&& r.user_id == p.user_id
    &&& r.title@ == p.title@
    &&& r.content@ == p.content@
    &&& r.created_at == p.created_at
    &&& r.updated_at == p.updated_at
    &&& exists|i: int| 0 <= i < db.users@.len() && (#[trigger] db.users@[i]).id == p.user_id
        && db.users@[i].username@ == r.username@
    &&& exists|i: int| 0 <= i < db.profiles@.len() && (#[trigger] db.profiles@[i]).user_id == p.user_id
        && db.profiles@[i].profile_image@ == r.profile_image@
    &&& r.likes == like_count(db.reactions@, p.id)
    &&& r.dislikes == dislike_count(db.reactions@, p.id)
}

/// `r` is `c` joined with its author's username and avatar.
pub open spec fn is_comment_response_for(db: Database, c: CommentModel, r: CommentResponse) -> bool {
    &&& r.id == c.id
    &&& r.user_id == c.user_id
    &&& r.post_id == c.post_id
    &&& r.content@ == c.content@
    &&& r.created_at == c.created_at
    &&& r.updated_at == c.updated_at
    &&& exists|i: int| 0 <= i < db.users@.len() && (#[trigger] db.users@[i]).id == c.user_id
        && db.users@[i].username@ == r.username@
    &&& exists|i: int| 0 <= i < db.profiles@.len() && (#[trigger] db.profiles@[i]).user_id == c.user_id
        && db.profiles@[i].profile_image@ == r.profile_image@
}

/// `r` is `p` joined with its owner's username.
pub open spec fn is_profile_response_for(db: Database, p: ProfileModel, r: ProfileResponse) -> bool {
    &&& r.profile_id == p.id
    &&& r.profile_image@ == p.profile_image@
    &&& exists|i: int| 0 <= i < db.users@.len() && (#[trigger] db.users@[i]).id == p.user_id
        && db.users@[i].username@ == r.username@
}

/// The comments of one post, in table (oldest-first) order.
pub open spec fn comments_for(s: Seq<CommentModel>, post_id: u128) -> Seq<CommentModel>
    decreases s.len(),
{
    if s.len() == 0 {
        Seq::empty()
    } else if s.last().post_id == post_id {
        comments_for(s.drop_last(), post_id).push(s.last())
    } else {
        comments_for(s.drop_last(), post_id)
    }
}

impl Database {
    /// One post joined with author data and reaction aggregates.
    fn build_post_response(&self, p: &PostModel) -> (r: PostResponse)
        requires
            self.wf(),
            has_user_id(self.users@, p.user_id),
        ensures
            is_post_response_for(*self, *p, r),
    {
        let user = self.find_user_by_id(p.user_id).unwrap();
        proof {
            let w = choose|i: int| 0 <= i < self.users@.len() && (#[trigger] self.users@[i]).id == p.user_id;
            assert(has_profile_for(self.profiles@, self.users@[w].id));
        }
        let profile = self.find_profile_by_user(p.user_id).unwrap();
        let (likes, dislikes) = self.count_reactions(p.id);
        PostResponse {
            id: p.id,
            user_id: p.user_id,
            username: user.username.clone(),
            profile_image: profile.profile_image.clone(),
            title: p.title.clone(),
            content: p.content.clone(),
            likes,
            dislikes,
            created_at: p.created_at,
            updated_at: p.updated_at,
        }
    }

    /// The post carrying this identifier, joined and aggregated, if any.
    pub fn get_post_response(&self, post_id: u128) -> (r: Option<PostResponse>)
        requires
            self.wf(),
        ensures
            match r {
                Some(pr) => exists|i: int| 0 <= i < self.posts@.len()
                    && (#[trigger] self.posts@[i]).id == post_id
                    && is_post_response_for(*self, self.posts@[i], pr),
                None => !has_post_id(self.posts@, post_id),
            },
    {
        match self.find_post_by_id(post_id) {
            Some(p) => {
                proof {
                    let w = choose|i: int| 0 <= i < self.posts@.len() && (#[trigger] self.posts@[i]) == *p;
                    assert(has_user_id(self.users@, self.posts@[w].user_id));
                }
                Some(self.build_post_response(p))
            },
            None => None,
        }
    }

    /// All posts, joined and aggregated, newest first.
    pub fn list_posts(&self) -> (r: Vec<PostResponse>)
        requires
            self.wf(),
        ensures
            r@.len() == self.posts@.len(),
            forall|k: int| 0 <= k < r@.len()
                ==> is_post_response_for(*self, self.posts@[self.posts@.len() - 1 - k], #[trigger] r@[k]),
    {
        let n = self.posts.len();
        let mut out: Vec<PostResponse> = Vec::new();
        let mut i: usize = n;
        while i > 0
            invariant
                n == self.posts@.len(),
                i <= n,
                self.wf(),
                out@.len() == n - i,
                forall|k: int| 0 <= k < out@.len()
                    ==> is_post_response_for(*self, self.posts@[n - 1 - k], #[trigger] out@[k]),
            decreases i,
        {
            i -= 1;
            let p = &self.posts[i];
            proof {
                assert(has_user_id(self.users@, self.posts@[i as int].user_id));
            }
            let resp = self.build_post_response(p);
            out.push(resp);
        }
        out
    }

    /// Creates a comment by this user on this post, stamped with the
    /// current clock tick.
    pub fn insert_comment(&mut self, user_id: u128, post_id: u128, content: &str)
        requires
            old(self).wf(),
            has_user_id(old(self).users@, user_id),
            has_post_id(old(self).posts@, post_id),
            old(self).next_id < u128::MAX,
            old(self).clock < u64::MAX,
        ensures
            final(self).wf(),
            final(self).comments@.len() == old(self).comments@.len() + 1,
            final(self).comments@.drop_last() == old(self).comments@,
            ({
                let c = final(self).comments@.last();
                c.id == old(self).next_id && c.user_id == user_id && c.post_id == post_id
                    && c.content@ == content@ && c.created_at == old(self).clock
                    && c.updated_at == old(self).clock
            }),
            final(self).users@ == old(self).users@,
            final(self).profiles@ == old(self).profiles@,
            final(self).posts@ == old(self).posts@,
            final(self).reactions@ == old(self).reactions@,
            final(self).next_id == old(self).next_id + 1,
            final(self).clock == old(self).clock + 1,
    {
        let comment = CommentModel {
            id: self.next_id,
            user_id,
            post_id,
            content: content.to_owned(),
            created_at: self.clock,
            updated_at: self.clock,
        };
        self.comments.push(comment);
        self.next_id = self.next_id + 1;
        self.clock = self.clock + 1;
        proof {
            let oc = old(self).comments@;
            let nc = self.comments@;
            assert(nc.drop_last() =~= oc);
            assert forall|i: int, j: int|
                #![trigger nc[i], nc[j]]
                0 <= i < j < nc.len() implies nc[i].id != nc[j].id
                    && nc[i].created_at < nc[j].created_at by {
                if j < nc.len() - 1 {
                    assert(nc[i] == oc[i] && nc[j] == oc[j]);
                } else if i < nc.len() - 1 {
                    assert(nc[i] == oc[i]);
                }
            }
            assert forall|i: int| 0 <= i < nc.len() implies (#[trigger] nc[i]).id < self.next_id
                && nc[i].created_at < self.clock
                && has_user_id(self.users@, nc[i].user_id)
                && has_post_id(self.posts@, nc[i].post_id) by {
                if i < nc.len() - 1 {
                    assert(nc[i] == oc[i]);
                }
            }
        }
    }

    /// One comment joined with author data.
    fn build_comment_response(&self, c: &CommentModel) -> (r: CommentResponse)
        requires
            self.wf(),
            has_user_id(self.users@, c.user_id),
        ensures
            is_comment_response_for(*self, *c, r),
    {
        let user = self.find_user_by_id(c.user_id).unwrap();
        proof {
            let w = choose|i: int| 0 <= i < self.users@.len() && (#[trigger] self.users@[i]).id == c.user_id;
            assert(has_profile_for(self.profiles@, self.users@[w].id));
        }
        let profile = self.find_profile_by_user(c.user_id).unwrap();
        CommentResponse {
            id: c.id,
            username: user.username.clone(),
            profile_image: profile.profile_image.clone(),
            user_id: c.user_id,
            post_id: c.post_id,
            content: c.content.clone(),
            created_at: c.created_at,
            updated_at: c.updated_at,
        }
    }

    /// The comments of one post, joined with author data, newest first.
    pub fn comments_for_post(&self, post_id: u128) -> (r: Vec<CommentResponse>)
        requires
            self.wf(),
        ensures
            ({
                let cf = comments_for(self.comments@, post_id);
                r@.len() == cf.len() && forall|k: int| 0 <= k < r@.len()
                    ==> is_comment_response_for(*self, cf[cf.len() - 1 - k], #[trigger] r@[k])
            }),
    {
        let n = self.comments.len();
        let mut matches: Vec<CommentResponse> = Vec::new();
        let mut i: usize = 0;
        while i < n
            invariant
                n == self.comments@.len(),
                i <= n,
                self.wf(),
                ({
                    let cf = comments_for(self.comments@.take(i as int), post_id);
                    matches@.len() == cf.len() && forall|k: int| 0 <= k < matches@.len()
                        ==> is_comment_response_for(*self, cf[k], #[trigger] matches@[k])
                }),
            decreases n - i,
        {
            proof {
                assert(self.comments@.take(i as int + 1).drop_last() =~= self.comments@.take(i as int));
                assert(self.comments@.take(i as int + 1).last() == self.comments@[i as int]);
            }
            if self.comments[i].post_id == post_id {
                let c = &self.comments[i];
                proof {
                    assert(has_user_id(self.users@, self.comments@[i as int].user_id));
                }
                let resp = self.build_comment_response(c);
                matches.push(resp);
            }
            i += 1;
        }
        proof {
            assert(self.comments@.take(n as int) =~= self.comments@);
        }
        let ghost all = matches@;
        proof {
            assert(all.take(all.len() as int) =~= all);
        }
        let mut out: Vec<CommentResponse> = Vec::new();
        while matches.len() > 0
            invariant
                matches@ == all.take(matches@.len() as int),
                out@.len() + matches@.len() == all.len(),
                forall|a: int| 0 <= a < out@.len() ==> #[trigger] out@[a] == all[all.len() - 1 - a],
                ({
                    let cf = comments_for(self.comments@, post_id);
                    all.len() == cf.len() && forall|a: int| 0 <= a < all.len()
                        ==> is_comment_response_for(*self, cf[a], #[trigger] all[a])
                }),
            decreases matches@.len(),
        {
            proof {
                let l = matches@.len() as int;
                assert(matches@.last() == all[l - 1]);
                assert(matches@.drop_last() =~= all.take(l - 1));
            }
            let resp = matches.pop().unwrap();
            out.push(resp);
        }
        proof {
            assert(all.take(0) =~= Seq::<CommentResponse>::empty());
        }
        out
    }

    /// Points this user's profile at a new avatar file; a no-op where the
    /// user has no profile.
    pub fn set_profile_image(&mut self, user_id: u128, file_name: &str)
        requires
            old(self).wf(),
        ensures
            final(self).wf(),
            final(self).profiles@.len() == old(self).profiles@.len(),
            forall|i: int| 0 <= i < old(self).profiles@.len()
                && (#[trigger] old(self).profiles@[i]).user_id != user_id
                ==> final(self).profiles@[i] == old(self).profiles@[i],
            forall|i: int| 0 <= i < old(self).profiles@.len()
                && (#[trigger] old(self).profiles@[i]).user_id == user_id
                ==> {
                    let op = old(self).profiles@[i];
                    let np = final(self).profiles@[i];
                    np.id == op.id && np.user_id == op.user_id && np.profile_image@ == file_name@
                        && np.bio@ == op.bio@
                },
            final(self).users@ == old(self).users@,
            final(self).posts@ == old(self).posts@,
            final(self).comments@ == old(self).comments@,
            final(self).reactions@ == old(self).reactions@,
            final(self).next_id == old(self).next_id,
            final(self).clock == old(self).clock,
    {
        let n = self.profiles.len();
        let mut i: usize = 0;
        while i < n
            invariant
                n == self.profiles@.len(),
                i <= n,
                *self == *old(self),
                old(self).wf(),
                forall|j: int| 0 <= j < i ==> (#[trigger] self.profiles@[j]).user_id != user_id,
            decreases n - i,
        {
            if self.profiles[i].user_id == user_id {
                let prev_id = self.profiles[i].id;
                let prev_user = self.profiles[i].user_id;
                let prev_bio = self.profiles[i].bio.clone();
                let p = &mut self.profiles[i];
                *p = ProfileModel {
                    id: prev_id,
                    user_id: prev_user,
                    profile_image: file_name.to_owned(),
                    bio: prev_bio,
                };
                proof {
                    let op = old(self).profiles@;
                    let np = self.profiles@;
                    assert forall|a: int, b: int|
                        #![trigger np[a], np[b]]
                        0 <= a < b < np.len() implies np[a].user_id != np[b].user_id by {
                        assert(np[a].user_id == op[a].user_id && np[b].user_id == op[b].user_id);
                    }
                    assert forall|a: int| 0 <= a < np.len() implies (#[trigger] np[a]).id < self.next_id
                        && np[a].user_id < self.next_id
                        && has_user_id(self.users@, np[a].user_id) by {
                        assert(np[a].id == op[a].id && np[a].user_id == op[a].user_id);
                    }
                    assert forall|a: int| 0 <= a < self.users@.len()
                        implies has_profile_for(np, (#[trigger] self.users@[a]).id) by {
                        assert(has_profile_for(op, self.users@[a].id));
                        let w = choose|c: int| 0 <= c < op.len() && (#[trigger] op[c]).user_id == self.users@[a].id;
                        assert(np[w].user_id == self.users@[a].id);
                    }
                }
                return ;
            }
            i += 1;
        }
    }

    /// All profiles joined with their owners' usernames, in table order.
    pub fn list_profiles(&self) -> (r: Vec<ProfileResponse>)
        requires
            self.wf(),
        ensures
            r@.len() == self.profiles@.len(),
            forall|k: int| 0 <= k < r@.len()
                ==> is_profile_response_for(*self, self.profiles@[k], #[trigger] r@[k]),
    {
        let n = self.profiles.len();
        let mut out: Vec<ProfileResponse> = Vec::new();
        let mut i: usize = 0;
        while i < n
            invariant
                n == self.profiles@.len(),
                i <= n,
                self.wf(),
                out@.len() == i,
                forall|k: int| 0 <= k < out@.len()
                    ==> is_profile_response_for(*self, self.profiles@[k], #[trigger] out@[k]),
            decreases n - i,
        {
            let p = &self.profiles[i];
            proof {
                assert(has_user_id(self.users@, self.profiles@[i as int].user_id));
            }
            let user = self.find_user_by_id(p.user_id).unwrap();
            out.push(ProfileResponse {
                profile_id: p.id,
                username: user.username.clone(),
                profile_image: p.profile_image.clone(),
            });
            i += 1;
        }
        out
    }
}

} // verus!
