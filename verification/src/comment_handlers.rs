//! The comment endpoints: list a post's comments, create a comment.

use vstd::prelude::*;
use crate::ids::{parse_uuid, uuid_of_str};
use crate::model::UserModel;
use crate::response::{
    fields_match, is_single_fail, single_fail, AppError, JsendResponse, ResponseData, Status,
};
use crate::schema::{comment_error_list, CommentSchema};
use crate::store::{
    comments_for, db_unchanged, has_post_id, has_user_id, is_comment_response_for, Database,
};

verus! {

/// Serves a post's comments joined with author data, newest first. A
/// post without comments (or an identifier no post carries) yields an
/// empty list.
pub fn get_comments_handler(db: &Database, postid: &str) -> (r: Result<JsendResponse, AppError>)
    requires
        db.wf(),
    ensures
        ({
            let pid = uuid_of_str(postid@);
            &&& pid is None ==> (r matches Err(e) && is_single_fail(e, "post_id"@, "not a valid UUID"@))
            &&& pid matches Some(id) ==> (r matches Ok(resp) && resp.status == Status::Success
                && resp.message is None
                && (resp.data matches Some(ResponseData::Comments(list)) && ({
                    let cf = comments_for(db.comments@, id);
                    list@.len() == cf.len() && forall|k: int| 0 <= k < list@.len()
                        ==> is_comment_response_for(*db, cf[cf.len() - 1 - k], #[trigger] list@[k])
                })))
        }),
{
    let pid = match parse_uuid(postid) {
        Some(p) => p,
        None => {
            return Err(single_fail("post_id", "not a valid UUID"));
        },
    };
    let list = db.comments_for_post(pid);
    Ok(JsendResponse::success(Some(ResponseData::Comments(list))))
}

/// Creates a comment by the authenticated caller on a post, after
/// checking the body (the body is checked before the path identifier,
/// so a bad body wins over a bad identifier). A comment belongs to an
/// existing post; commenting on an identifier no post carries surfaces
/// as the server fault a storage constraint violation gives.
pub fn create_comment_handler(db: &mut Database, user: &UserModel, postid: &str, comment: &CommentSchema) -> (r: Result<JsendResponse, AppError>)
    requires
        old(db).wf(),
        has_user_id(old(db).users@, user.id),
        old(db).next_id < u128::MAX,
        old(db).clock < u64::MAX,
    ensures
        final(db).wf(),
        ({
            let errors = comment_error_list(comment.content@);
            let pid = uuid_of_str(postid@);
            &&& errors.len() > 0 ==> ((r matches Err(AppError::ValidationError(v))
                    && fields_match(v@, errors)) && db_unchanged(*old(db), *final(db)))
            &&& (errors.len() == 0 && pid is None) ==> ((r matches Err(e)
                    && is_single_fail(e, "post_id"@, "not a valid UUID"@))
                && db_unchanged(*old(db), *final(db)))
            &&& errors.len() == 0 ==> (pid matches Some(id) ==> (
                (!has_post_id(old(db).posts@, id) ==> ((r matches Err(e) && e is InternalServerError)
                    && db_unchanged(*old(db), *final(db))))
                && (has_post_id(old(db).posts@, id) ==> (
                    (r matches Ok(resp) && resp.status == Status::Success && resp.message is None
                        && resp.data is None)
                    && final(db).comments@.len() == old(db).comments@.len() + 1
                    && final(db).comments@.drop_last() == old(db).comments@
                    && ({
                        let c = final(db).comments@.last();
                        c.user_id == user.id && c.post_id == id && c.content@ == comment.content@
                            && c.created_at == old(db).clock
                    })
                    && final(db).users@ == old(db).users@
                    && final(db).profiles@ == old(db).profiles@
                    && final(db).posts@ == old(db).posts@
                    && final(db).reactions@ == old(db).reactions@
                    && final(db).next_id == old(db).next_id + 1
                    && final(db).clock == old(db).clock + 1
                ))
            ))
        }),
{
    if let Err(v) = comment.validate() {
        return Err(AppError::ValidationError(v));
    }
    let pid = match parse_uuid(postid) {
        Some(p) => p,
        None => {
            return Err(single_fail("post_id", "not a valid UUID"));
        },
    };
    if db.post_owner(pid).is_none() {
        return Err(AppError::InternalServerError);
    }
    db.insert_comment(user.id, pid, comment.content.as_str());
    Ok(JsendResponse::success(None))
}

} // verus!
