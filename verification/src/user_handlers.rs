//! The public user directory endpoint.

use vstd::prelude::*;
use crate::response::{AppError, JsendResponse, ResponseData, Status};
use crate::store::{is_profile_response_for, Database};

verus! {

/// Serves every profile joined with its owner's username, in table
/// order.
pub fn get_all_users(db: &Database) -> (r: Result<JsendResponse, AppError>)
    requires
        db.wf(),
    ensures
        r matches Ok(resp) && resp.status == Status::Success && resp.message is None
            && (resp.data matches Some(ResponseData::Users(list))
                && list@.len() == db.profiles@.len()
                && forall|k: int| 0 <= k < list@.len()
                    ==> is_profile_response_for(*db, db.profiles@[k], #[trigger] list@[k])),
{
    let list = db.list_profiles();
    Ok(JsendResponse::success(Some(ResponseData::Users(list))))
}

} // verus!
