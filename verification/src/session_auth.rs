//! The authentication step in front of every protected endpoint.
//!
//! The request's session token is resolved to a user identity: an
//! unbound (or expired, which looks the same) token is rejected, a bound
//! token whose account has meanwhile disappeared is rejected the same
//! way, and otherwise the resolved user is handed to the endpoint.

use vstd::prelude::*;
use crate::model::UserModel;
use crate::response::{is_single_fail, single_fail, AppError};
use crate::session::{token_lookup, SessionStore};
use crate::store::{has_user_id, Database};

verus! {

/// Resolves the session token to the user it stands for, or rejects the
/// request as unauthenticated.
pub fn auth<'a>(db: &'a Database, sessions: &SessionStore, token: u128) -> (r: Result<&'a UserModel, AppError>)
    ensures
        token_lookup(sessions.entries@, token) is None ==> (r matches Err(e)
            && is_single_fail(e, "authentication"@, "user is not authenticated"@)),
        (token_lookup(sessions.entries@, token) matches Some(uid) && !has_user_id(db.users@, uid))
            ==> (r matches Err(e) && is_single_fail(e, "authentication"@, "user is not authenticated"@)),
        (token_lookup(sessions.entries@, token) matches Some(uid) && has_user_id(db.users@, uid))
            ==> r is Ok,
        r matches Ok(u) ==> db.users@.contains(*u)
            && token_lookup(sessions.entries@, token) == Some(u.id),
{
    match sessions.get(token) {
        Some(user_id) => match db.find_user_by_id(user_id) {
            Some(u) => Ok(u),
            None => Err(single_fail("authentication", "user is not authenticated")),
        },
        None => Err(single_fail("authentication", "user is not authenticated")),
    }
}

} // verus!
