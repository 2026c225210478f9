//! Who is calling: the bearer token of a request, and an active membership in
//! the pool a route names.
use vstd::prelude::*;

use crate::domain::entities::PoolMember as Membership;
use crate::domain::kinds::{MemberStatus, PoolRole};
use crate::error::{is_forbidden, AppError};
use crate::text::{starts_with, trim, trimmed};

verus! {

/// A caller whose access token was verified.
#[derive(Debug, Clone)]
pub struct AuthenticatedUser {
    pub user_id: String,
}

/// A caller with an active membership in the pool of the route.
#[derive(Debug, Clone)]
pub struct PoolMember {
    pub user_id: String,
    pub pool_id: String,
    pub pool_role: PoolRole,
}

pub open spec fn bearer_prefix() -> Seq<char> {
    "Bearer "@
}

/// The token of an `Authorization` header: what follows `Bearer `, where that
/// is not blank.
pub open spec fn bearer_token_of(header: Option<Seq<char>>) -> Option<Seq<char>> {
    match header {
        Some(h) => if h.len() >= 7 && h.subrange(0, 7) == bearer_prefix() && trimmed(h.skip(7)).len()
            > 0 {
            Some(h.skip(7))
        } else {
            None
        },
        None => None,
    }
}

/// The bearer token of a request, from its `Authorization` header (`None`
/// where the header is missing or not text).
pub fn bearer_token(header: Option<&str>) -> (r: Option<String>)
    ensures
        match r {
            Some(t) => bearer_token_of(
                match header {
                    Some(h) => Some(h@),
                    None => None,
                },
            ) == Some(t@),
            None => bearer_token_of(
                match header {
                    Some(h) => Some(h@),
                    None => None,
                },
            ) is None,
        },
{
    proof {
        reveal_strlit("Bearer ");
    }
    match header {
        None => None,
        Some(h) => {
            if !starts_with(h, "Bearer ") {
                return None;
            }
            let n = h.unicode_len();
            let rest = h.substring_char(7, n);
            assert(rest@ =~= h@.skip(7));
            let t = trim(rest);
            if t.unicode_len() == 0 {
                None
            } else {
                Some(String::from_str(rest))
            }
        },
    }
}

/// Whether a membership lets its user act in its pool.
pub open spec fn active_membership(m: Option<Membership>) -> bool {
    m matches Some(x) && x.status == MemberStatus::Active
}

/// The caller as a member of the pool `pool_id`, from the membership found
/// for them there. A missing or inactive membership is refused.
pub fn pool_member_access(auth: AuthenticatedUser, pool_id: String, membership: Option<Membership>) -> (r:
    Result<PoolMember, AppError>)
    ensures
        r is Ok <==> active_membership(membership),
        r matches Ok(p) ==> p.user_id == auth.user_id && p.pool_id == pool_id && p.pool_role
            == membership->0.role,
        r matches Err(e) ==> is_forbidden(e, "you are not a member of this pool"@),
{
    match membership {
        Some(m) => {
            if m.status == MemberStatus::Active {
                Ok(PoolMember { user_id: auth.user_id, pool_id, pool_role: m.role })
            } else {
                Err(AppError::forbidden("you are not a member of this pool"))
            }
        },
        None => Err(AppError::forbidden("you are not a member of this pool")),
    }
}

} // verus!
