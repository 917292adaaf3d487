//! The profile endpoints: read one profile, store a new avatar.

use vstd::prelude::*;
use crate::ids::{uuid_str_of, uuid_to_string};
use crate::model::ProfileModel;
use crate::response::{is_single_fail, single_fail, AppError, JsendResponse, ResponseData, Status};
use crate::store::{db_unchanged, user_with_username, Database};
use crate::text::str_eq;
use vstd::string::StringExecFns;

verus! {

/// Serves one user's profile, found by username. An unknown username is
/// a client-correctable miss, so it is answered as a fail with a
/// single-key payload, like every other not-found in this taxonomy.
pub fn get_profile(db: &Database, username: &str) -> (r: Result<JsendResponse, AppError>)
    requires
        db.wf(),
    ensures
        ({
            let found = user_with_username(db.users@, username@);
            &&& found is None ==> (r matches Err(e) && is_single_fail(e, "username"@, "User not found"@))
            &&& found matches Some(u) ==> (r matches Ok(resp) && resp.status == Status::Success
                && resp.message is None
                && (resp.data matches Some(ResponseData::Profile(p))
                    && db.profiles@.contains(p) && p.user_id == u.id))
        }),
{
    let user = match db.find_user_by_username(username) {
        Some(u) => u,
        None => {
            return Err(single_fail("username", "User not found"));
        },
    };
    proof {
        assert(db.users@.contains(*user));
        let w = choose|i: int| 0 <= i < db.users@.len() && (#[trigger] db.users@[i]) == *user;
        assert(crate::store::has_profile_for(db.profiles@, db.users@[w].id));
    }
    let profile = match db.find_profile_by_user(user.id) {
        Some(p) => p,
        None => {
            return Err(single_fail("profile", "profile not found"));
        },
    };
    let copy = ProfileModel {
        id: profile.id,
        user_id: profile.user_id,
        profile_image: profile.profile_image.clone(),
        bio: profile.bio.clone(),
    };
    proof {
        assert(copy == *profile);
    }
    Ok(JsendResponse::success(Some(ResponseData::Profile(copy))))
}

/// The stored file name for an uploaded avatar: the owner's identifier
/// in UUID text form with the extension its content type maps to. Only
/// PNG and JPEG uploads are accepted; a missing content type and any
/// other type are refused.
pub fn avatar_file_name(user_id: u128, content_type: Option<&str>) -> (r: Result<String, AppError>)
    ensures
        content_type is None ==> (r matches Err(AppError::JsendError(m))
            && m@ == "invalid content-type"@),
        content_type matches Some(ct) ==> (
            (ct@ == "image/png"@ ==> (r matches Ok(n) && n@ == uuid_str_of(user_id) + ".png"@))
            && (ct@ == "image/jpeg"@ ==> (r matches Ok(n) && n@ == uuid_str_of(user_id) + ".jpg"@))
            && ((ct@ != "image/png"@ && ct@ != "image/jpeg"@) ==> (r matches Err(AppError::JsendError(m))
                && m@ == "Unsupported file type"@))
        ),
{
    let ct = match content_type {
        Some(c) => c,
        None => {
            return Err(AppError::JsendError("invalid content-type".to_owned()));
        },
    };
    proof {
        reveal_strlit("image/png");
        reveal_strlit("image/jpeg");
        assert("image/png"@.len() == 9);
        assert("image/jpeg"@.len() == 10);
        assert("image/png"@ != "image/jpeg"@);
    }
    let ext: &str = if str_eq(ct, "image/png") {
        ".png"
    } else if str_eq(ct, "image/jpeg") {
        ".jpg"
    } else {
        return Err(AppError::JsendError("Unsupported file type".to_owned()));
    };
    let base = uuid_to_string(user_id);
    Ok(base.concat(ext))
}

/// Points the caller's profile at the freshly stored avatar file and
/// answers plain success. (Reading the upload and writing the file are
/// the application's work; this step records the outcome.)
pub fn record_avatar(db: &mut Database, user_id: u128, file_name: &str) -> (r: JsendResponse)
    requires
        old(db).wf(),
    ensures
        final(db).wf(),
        r.status == Status::Success && r.message is None && r.data is None,
        final(db).profiles@.len() == old(db).profiles@.len(),
        forall|i: int| 0 <= i < old(db).profiles@.len()
            && (#[trigger] old(db).profiles@[i]).user_id != user_id
            ==> final(db).profiles@[i] == old(db).profiles@[i],
        forall|i: int| 0 <= i < old(db).profiles@.len()
            && (#[trigger] old(db).profiles@[i]).user_id == user_id
            ==> ({
                let op = old(db).profiles@[i];
                let np = final(db).profiles@[i];
                np.id == op.id && np.user_id == op.user_id && np.profile_image@ == file_name@
                    && np.bio@ == op.bio@
            }),
        final(db).users@ == old(db).users@,
        final(db).posts@ == old(db).posts@,
        final(db).comments@ == old(db).comments@,
        final(db).reactions@ == old(db).reactions@,
        final(db).next_id == old(db).next_id,
        final(db).clock == old(db).clock,
{
    db.set_profile_image(user_id, file_name);
    JsendResponse::success(None)
}

} // verus!
