//! The account endpoints: register, login, logout, status.

use vstd::prelude::*;
use crate::crypto::{hash_password, password_verifies, verify_password};
use crate::model::UserModel;
use crate::response::{
    fields_match, is_single_fail, single_fail, AppError, FieldError, JsendResponse, ResponseData,
    Status,
};
use crate::schema::{login_error_list, register_error_list, LoginUserSchema, RegisterUserSchema};
use crate::session::{has_token, token_lookup, SessionStore};
use crate::store::{db_unchanged, has_email, has_username, user_with_username, Database};
use crate::text::{ascii_lower, to_ascii_lowercase};

verus! {

/// Checks the login body, looks the user up, verifies the password
/// against the stored hash, and on success binds the caller's session
/// token to the account.
pub fn login_handler(db: &Database, sessions: &mut SessionStore, token: u128, body: &LoginUserSchema) -> (r: Result<JsendResponse, AppError>)
    requires
        db.wf(),
        old(sessions).wf(),
    ensures
        final(sessions).wf(),
        ({
            let errors = login_error_list(body.username@, body.password@);
            let found = user_with_username(db.users@, body.username@);
            &&& errors.len() > 0 ==> ((r matches Err(AppError::ValidationError(v))
                    && fields_match(v@, errors))
                && final(sessions).entries@ == old(sessions).entries@)
            &&& (errors.len() == 0 && found is None) ==> ((r matches Err(e)
                    && is_single_fail(e, "username"@, "user does not exist"@))
                && final(sessions).entries@ == old(sessions).entries@)
            &&& errors.len() == 0 ==> (found matches Some(u) ==> (
                (!password_verifies(body.password@, u.password@) ==> ((r matches Err(e)
                        && is_single_fail(e, "password"@, "password is incorrect"@))
                    && final(sessions).entries@ == old(sessions).entries@))
                && (password_verifies(body.password@, u.password@) ==> ((r matches Ok(resp)
                        && resp.status == Status::Success && resp.message is None
                        && (resp.data matches Some(ResponseData::Username(n)) && n@ == body.username@))
                    && token_lookup(final(sessions).entries@, token) == Some(u.id)))
            ))
        }),
{
    if let Err(v) = body.validate() {
        return Err(AppError::ValidationError(v));
    }
    let user = match db.find_user_by_username(body.username.as_str()) {
        Some(u) => u,
        None => {
            return Err(single_fail("username", "user does not exist"));
        },
    };
    let is_valid = verify_password(body.password.as_str(), user.password.as_str());
    if !is_valid {
        return Err(single_fail("password", "password is incorrect"));
    }
    sessions.insert(token, user.id);
    Ok(JsendResponse::success(Some(ResponseData::Username(body.username.clone()))))
}

/// Unbinds the caller's session token. Never errors: removing an unbound
/// token changes nothing, so a repeated logout succeeds the same way.
pub fn logout_handler(sessions: &mut SessionStore, token: u128) -> (r: Result<JsendResponse, AppError>)
    requires
        old(sessions).wf(),
    ensures
        final(sessions).wf(),
        r is Ok,
        r matches Ok(resp) ==> resp.status == Status::Success && resp.message is None
            && resp.data is None,
        !has_token(final(sessions).entries@, token),
        !has_token(old(sessions).entries@, token) ==> final(sessions).entries@ == old(sessions).entries@,
{
    sessions.delete(token);
    Ok(JsendResponse::success(None))
}

/// Creates the account and its default profile from an already-computed
/// password hash, and answers plain success. Split out so that the
/// outcome for every hash value is pinned down: whatever text the hasher
/// returned, this step succeeds on a free username and email.
pub fn finish_register(db: &mut Database, username: &str, email: &str, password_hash: &str) -> (r: JsendResponse)
    requires
        old(db).wf(),
        !has_username(old(db).users@, username@),
        !has_email(old(db).users@, email@),
        old(db).next_id + 1 < u128::MAX,
    ensures
        final(db).wf(),
        r.status == Status::Success && r.message is None && r.data is None,
        final(db).users@.len() == old(db).users@.len() + 1,
        final(db).users@.drop_last() == old(db).users@,
        ({
            let u = final(db).users@.last();
            u.username@ == username@ && u.email@ == email@ && u.password@ == password_hash@
                && u.role@ == "user"@
        }),
        final(db).profiles@.len() == old(db).profiles@.len() + 1,
        final(db).profiles@.drop_last() == old(db).profiles@,
        ({
            let p = final(db).profiles@.last();
            p.user_id == final(db).users@.last().id && p.profile_image@ == "default.jpg"@
                && p.bio@ == ""@
        }),
        final(db).posts@ == old(db).posts@,
        final(db).comments@ == old(db).comments@,
        final(db).reactions@ == old(db).reactions@,
        final(db).next_id == old(db).next_id + 2,
        final(db).clock == old(db).clock,
{
    db.insert_user_with_profile(username, email, password_hash);
    JsendResponse::success(None)
}

/// Checks the registration body, reports a taken username and a taken
/// email together (never just the first one found), then hashes the
/// password and creates the account with its default profile as one
/// atomic step. The email is stored lowercased; where only the
/// lowercased form collides, the uniqueness rule surfaces as a server
/// fault, as a storage constraint violation would.
pub fn register_handler(db: &mut Database, body: &RegisterUserSchema) -> (r: Result<JsendResponse, AppError>)
    requires
        old(db).wf(),
        old(db).next_id + 1 < u128::MAX,
    ensures
        final(db).wf(),
        ({
            let errors = register_error_list(body.username@, body.email@, body.password@);
            let name_taken = has_username(old(db).users@, body.username@);
            let email_taken = has_email(old(db).users@, body.email@);
            let lower_taken = has_email(old(db).users@, ascii_lower(body.email@));
            &&& errors.len() > 0 ==> ((r matches Err(AppError::ValidationError(v))
                    && fields_match(v@, errors)) && db_unchanged(*old(db), *final(db)))
            &&& (errors.len() == 0 && name_taken && email_taken) ==> ((r matches Err(AppError::JsendFail(v))
                    && fields_match(v@, seq![("username"@, "username already exists"@), ("email"@, "email already exists"@)]))
                && db_unchanged(*old(db), *final(db)))
            &&& (errors.len() == 0 && name_taken && !email_taken) ==> ((r matches Err(e)
                    && is_single_fail(e, "username"@, "username already exists"@))
                && db_unchanged(*old(db), *final(db)))
            &&& (errors.len() == 0 && !name_taken && email_taken) ==> ((r matches Err(e)
                    && is_single_fail(e, "email"@, "email already exists"@))
                && db_unchanged(*old(db), *final(db)))
            &&& (errors.len() == 0 && !name_taken && !email_taken && lower_taken)
                ==> (r matches Err(e) && e is InternalServerError) && db_unchanged(*old(db), *final(db))
            &&& (errors.len() == 0 && !name_taken && !email_taken && !lower_taken) ==> {
                &&& (r matches Err(e) ==> e is InternalServerError && db_unchanged(*old(db), *final(db)))
                &&& (r matches Ok(resp) ==> {
                    &&& resp.status == Status::Success && resp.message is None && resp.data is None
                    &&& final(db).users@.len() == old(db).users@.len() + 1
                    &&& final(db).users@.drop_last() == old(db).users@
                    &&& ({
                        let u = final(db).users@.last();
                        u.username@ == body.username@ && u.email@ == ascii_lower(body.email@)
                            && password_verifies(body.password@, u.password@) && u.role@ == "user"@
                    })
                    &&& final(db).profiles@.len() == old(db).profiles@.len() + 1
                    &&& final(db).profiles@.drop_last() == old(db).profiles@
                    &&& ({
                        let p = final(db).profiles@.last();
                        p.user_id == final(db).users@.last().id
                            && p.profile_image@ == "default.jpg"@ && p.bio@ == ""@
                    })
                    &&& final(db).posts@ == old(db).posts@
                    &&& final(db).comments@ == old(db).comments@
                    &&& final(db).reactions@ == old(db).reactions@
                    &&& final(db).next_id == old(db).next_id + 2
                    &&& final(db).clock == old(db).clock
                })
            }
        }),
{
    if let Err(v) = body.validate() {
        return Err(AppError::ValidationError(v));
    }
    let name_taken = db.username_exists(body.username.as_str());
    let email_taken = db.email_exists(body.email.as_str());
    if name_taken || email_taken {
        let mut fails: Vec<FieldError> = Vec::new();
        if name_taken {
            fails.push(FieldError {
                field: "username".to_owned(),
                message: "username already exists".to_owned(),
            });
        }
        if email_taken {
            fails.push(FieldError {
                field: "email".to_owned(),
                message: "email already exists".to_owned(),
            });
        }
        return Err(AppError::JsendFail(fails));
    }
    let lowered = to_ascii_lowercase(body.email.as_str());
    if db.email_exists(lowered.as_str()) {
        return Err(AppError::InternalServerError);
    }
    let hashed = match hash_password(body.password.as_str()) {
        Some(h) => h,
        None => {
            return Err(AppError::InternalServerError);
        },
    };
    Ok(finish_register(db, body.username.as_str(), lowered.as_str(), hashed.as_str()))
}

/// Echoes the authenticated caller's identity.
pub fn status_handler(user: &UserModel) -> (r: Result<JsendResponse, AppError>)
    ensures
        r matches Ok(resp) && resp.status == Status::Success && resp.message is None
            && (resp.data matches Some(ResponseData::AuthStatus { is_logged_in, username })
                && is_logged_in && username@ == user.username@),
{
    Ok(JsendResponse::success(Some(ResponseData::AuthStatus {
        is_logged_in: true,
        username: user.username.clone(),
    })))
}

} // verus!
