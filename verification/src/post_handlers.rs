//! The post endpoints: read one, read all, create, delete, react.

use vstd::prelude::*;
use crate::ids::{parse_uuid, uuid_of_str};
use crate::model::UserModel;
use crate::response::{
    fields_match, is_single_fail, single_fail, AppError, JsendResponse, ResponseData, Status,
};
use crate::schema::{post_error_list, PostSchema, ReactPostSchema};
use crate::store::{
    comments_without, db_unchanged, dislike_count, has_post_id, has_reaction_by, has_user_id,
    is_post_response_for, like_count, post_owner_of, reaction_of, reactions_without, upsert_seq,
    Database,
};

verus! {

/// Serves one post with its aggregates, or reports a malformed
/// identifier or a missing post.
pub fn get_post(db: &Database, postid: &str) -> (r: Result<JsendResponse, AppError>)
    requires
        db.wf(),
    ensures
        ({
            let pid = uuid_of_str(postid@);
            &&& pid is None ==> (r matches Err(e) && is_single_fail(e, "post_id"@, "not a valid UUID"@))
            &&& pid matches Some(id) ==> (
                (!has_post_id(db.posts@, id) ==> (r matches Err(e)
                    && is_single_fail(e, "post"@, "post doesnt exist"@)))
                && (has_post_id(db.posts@, id) ==> (r matches Ok(resp)
                    && resp.status == Status::Success && resp.message is None
                    && (resp.data matches Some(ResponseData::Post(pr)) && exists|i: int|
                        0 <= i < db.posts@.len() && (#[trigger] db.posts@[i]).id == id
                            && is_post_response_for(*db, db.posts@[i], pr))))
            )
        }),
{
    let pid = match parse_uuid(postid) {
        Some(p) => p,
        None => {
            return Err(single_fail("post_id", "not a valid UUID"));
        },
    };
    match db.get_post_response(pid) {
        Some(pr) => Ok(JsendResponse::success(Some(ResponseData::Post(pr)))),
        None => Err(single_fail("post", "post doesnt exist")),
    }
}

/// Serves all posts with their aggregates, newest first.
pub fn get_all_posts(db: &Database) -> (r: Result<JsendResponse, AppError>)
    requires
        db.wf(),
    ensures
        r matches Ok(resp) && resp.status == Status::Success && resp.message is None
            && (resp.data matches Some(ResponseData::Posts(list)) && list@.len() == db.posts@.len()
                && forall|k: int| 0 <= k < list@.len()
                    ==> is_post_response_for(*db, db.posts@[db.posts@.len() - 1 - k], #[trigger] list@[k])),
{
    let list = db.list_posts();
    Ok(JsendResponse::success(Some(ResponseData::Posts(list))))
}

/// Creates a post owned by the authenticated caller, after checking the
/// body.
pub fn create_post(db: &mut Database, user: &UserModel, post: &PostSchema) -> (r: Result<JsendResponse, AppError>)
    requires
        old(db).wf(),
        has_user_id(old(db).users@, user.id),
        old(db).next_id < u128::MAX,
        old(db).clock < u64::MAX,
    ensures
        final(db).wf(),
        ({
            let errors = post_error_list(post.title@, post.content@);
            &&& errors.len() > 0 ==> ((r matches Err(AppError::ValidationError(v))
                    && fields_match(v@, errors)) && db_unchanged(*old(db), *final(db)))
            &&& errors.len() == 0 ==> ((r matches Ok(resp) && resp.status == Status::Success
                    && resp.message is None && resp.data is None)
                && final(db).posts@.len() == old(db).posts@.len() + 1
                && final(db).posts@.drop_last() == old(db).posts@
                && ({
                    let p = final(db).posts@.last();
                    p.user_id == user.id && p.title@ == post.title@ && p.content@ == post.content@
                        && p.created_at == old(db).clock
                })
                && final(db).users@ == old(db).users@
                && final(db).profiles@ == old(db).profiles@
                && final(db).comments@ == old(db).comments@
                && final(db).reactions@ == old(db).reactions@
                && final(db).next_id == old(db).next_id + 1
                && final(db).clock == old(db).clock + 1)
        }),
{
    if let Err(v) = post.validate() {
        return Err(AppError::ValidationError(v));
    }
    db.insert_post(user.id, post.title.as_str(), post.content.as_str());
    Ok(JsendResponse::success(None))
}

/// Deletes a post, only for its owner; the post's comments and
/// reactions go with it. A stranger's attempt is refused and leaves the
/// store untouched, so the post stays in every listing. (The
/// missing-post fail carries a flat single-pair payload.)
pub fn delete_post(db: &mut Database, user: &UserModel, postid: &str) -> (r: Result<JsendResponse, AppError>)
    requires
        old(db).wf(),
    ensures
        final(db).wf(),
        ({
            let pid = uuid_of_str(postid@);
            &&& pid is None ==> ((r matches Err(e) && is_single_fail(e, "post_id"@, "not a valid UUID"@))
                && db_unchanged(*old(db), *final(db)))
            &&& pid matches Some(id) ==> (
                (post_owner_of(old(db).posts@, id) is None ==> ((r matches Err(e)
                    && is_single_fail(e, "post"@, "post does not exist"@))
                    && db_unchanged(*old(db), *final(db))))
                && (post_owner_of(old(db).posts@, id) matches Some(owner) ==> (
                    (owner != user.id ==> ((r matches Err(e)
                        && is_single_fail(e, "authorization"@, "user not authorized to delete this"@))
                        && db_unchanged(*old(db), *final(db))))
                    && (owner == user.id ==> ((r matches Ok(resp) && resp.status == Status::Success
                            && resp.message is None && resp.data is None)
                        && !has_post_id(final(db).posts@, id)
                        && (exists|k: int| 0 <= k < old(db).posts@.len()
                            && (#[trigger] old(db).posts@[k]).id == id
                            && final(db).posts@ == old(db).posts@.remove(k))
                        && final(db).users@ == old(db).users@
                        && final(db).profiles@ == old(db).profiles@
                        && final(db).comments@ == comments_without(old(db).comments@, id)
                        && final(db).reactions@ == reactions_without(old(db).reactions@, id)
                        && final(db).next_id == old(db).next_id
                        && final(db).clock == old(db).clock))
                ))
            )
        }),
{
    let pid = match parse_uuid(postid) {
        Some(p) => p,
        None => {
            return Err(single_fail("post_id", "not a valid UUID"));
        },
    };
    let owner = match db.post_owner(pid) {
        Some(o) => o,
        None => {
            return Err(single_fail("post", "post does not exist"));
        },
    };
    if owner != user.id {
        return Err(single_fail("authorization", "user not authorized to delete this"));
    }
    db.delete_post(pid);
    Ok(JsendResponse::success(None))
}

/// Records the caller's like or dislike of a post — updating any earlier
/// reaction of the pair in place — and answers with the post's fresh
/// aggregate counts. A reaction belongs to an existing post; reacting to
/// an identifier no post carries surfaces as the server fault a storage
/// constraint violation gives.
pub fn react_to_post(db: &mut Database, user: &UserModel, postid: &str, body: &ReactPostSchema) -> (r: Result<JsendResponse, AppError>)
    requires
        old(db).wf(),
        old(db).next_id < u128::MAX,
    ensures
        final(db).wf(),
        ({
            let pid = uuid_of_str(postid@);
            &&& pid is None ==> ((r matches Err(e) && is_single_fail(e, "post_id"@, "not a valid UUID"@))
                && db_unchanged(*old(db), *final(db)))
            &&& pid matches Some(id) ==> (
                (!has_post_id(old(db).posts@, id) ==> ((r matches Err(e) && e is InternalServerError)
                    && db_unchanged(*old(db), *final(db))))
                && (has_post_id(old(db).posts@, id) ==> (
                    final(db).reactions@ == upsert_seq(old(db).reactions@, user.id, id, body.is_like, old(db).next_id)
                    && reaction_of(final(db).reactions@, user.id, id) == Some(body.is_like)
                    && (r matches Ok(resp) && resp.status == Status::Success && resp.message is None
                        && (resp.data matches Some(ResponseData::ReactionCounts { post_id: rp, like_count: lc, dislike_count: dc })
                            && rp == id && lc == like_count(final(db).reactions@, id)
                            && dc == dislike_count(final(db).reactions@, id)))
                    && final(db).users@ == old(db).users@
                    && final(db).profiles@ == old(db).profiles@
                    && final(db).posts@ == old(db).posts@
                    && final(db).comments@ == old(db).comments@
                    && final(db).clock == old(db).clock
                    && (has_reaction_by(old(db).reactions@, user.id, id)
                        ==> final(db).next_id == old(db).next_id)
                    && (!has_reaction_by(old(db).reactions@, user.id, id)
                        ==> final(db).next_id == old(db).next_id + 1)
                ))
            )
        }),
{
    if let Err(v) = body.validate() {
        return Err(AppError::ValidationError(v));
    }
    let pid = match parse_uuid(postid) {
        Some(p) => p,
        None => {
            return Err(single_fail("post_id", "not a valid UUID"));
        },
    };
    if db.post_owner(pid).is_none() {
        return Err(AppError::InternalServerError);
    }
    db.upsert_reaction(user.id, pid, body.is_like);
    proof {
        crate::store::lemma_upsert_sets_reaction(old(db).reactions@, user.id, pid, body.is_like, old(db).next_id);
    }
    let (likes, dislikes) = db.count_reactions(pid);
    Ok(JsendResponse::success(Some(ResponseData::ReactionCounts {
        post_id: pid,
        like_count: likes,
        dislike_count: dislikes,
    })))
}

} // verus!
