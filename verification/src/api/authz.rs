//! Who may use the administrative routes.
use vstd::prelude::*;

use crate::domain::entities::User;
use crate::domain::kinds::UserRole;
use crate::error::{is_forbidden, is_unauthorized, AppError};

verus! {

/// Whether the caller, as found by the id of their token, may act as an
/// administrator. A caller whose account no longer exists is unauthorized; one
/// without the administrator role is forbidden.
pub fn require_admin(user: Option<&User>) -> (r: Result<(), AppError>)
    ensures
        r is Ok <==> (user matches Some(u) && u.role == UserRole::Admin),
        user is None ==> (r matches Err(e) && is_unauthorized(
            e,
            "authenticated user no longer exists"@,
        )),
        (user matches Some(u) && u.role != UserRole::Admin) ==> (r matches Err(e) && is_forbidden(
            e,
            "admin privileges are required"@,
        )),
{
    match user {
        None => Err(AppError::unauthorized("authenticated user no longer exists")),
        Some(u) => {
            if !u.role.is_admin() {
                return Err(AppError::forbidden("admin privileges are required"));
            }
            Ok(())
        },
    }
}

} // verus!
