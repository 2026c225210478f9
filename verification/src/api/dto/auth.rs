use vstd::prelude::*;

use crate::auth::{AuthenticatedSession, LoginCommand, RegisterCommand};
use crate::domain::entities::User;
use crate::domain::kinds::user_role_text;

verus! {

#[derive(Debug, Clone)]
pub struct LoginRequest {
    pub email: String,
    pub password: String,
}
impl From<LoginRequest> for LoginCommand {
    fn from(value: LoginRequest) -> (r: Self) {
        LoginCommand {
            email: value.email,
            password: value.password,
        }
    }
}

impl vstd::std_specs::convert::FromSpecImpl<LoginRequest> for LoginCommand {
    open spec fn obeys_from_spec() -> bool {
        true
    }

    open spec fn from_spec(value: LoginRequest) -> Self {
        LoginCommand {
            email: value.email,
            password: value.password,
        }
    }
}
#[derive(Debug, Clone)]
pub struct RegisterRequest {
    pub display_name: String,
    pub email: String,
    pub password: String,
}
impl From<RegisterRequest> for RegisterCommand {
    fn from(value: RegisterRequest) -> (r: Self) {
        RegisterCommand {
            display_name: value.display_name,
            email: value.email,
            password: value.password,
        }
    }
}

impl vstd::std_specs::convert::FromSpecImpl<RegisterRequest> for RegisterCommand {
    open spec fn obeys_from_spec() -> bool {
        true
    }

    open spec fn from_spec(value: RegisterRequest) -> Self {
        RegisterCommand {
            display_name: value.display_name,
            email: value.email,
            password: value.password,
        }
    }
}
#[derive(Debug, Clone)]
pub struct LoginResponse {
    pub access_token: String,
    pub token_type: String,
    pub user_id: String,
    pub display_name: String,
}
impl LoginResponse {
    /// The answer to a successful sign-in or sign-up: a bearer token.
    pub fn from_session(session: AuthenticatedSession) -> (r: Self)
        ensures
            r.access_token == session.access_token,
            r.token_type@ == "Bearer"@,
            r.user_id == session.user_id,
            r.display_name == session.display_name,
    {
        LoginResponse {
            access_token: session.access_token,
            token_type: String::from_str("Bearer"),
            user_id: session.user_id,
            display_name: session.display_name,
        }
    }
}

#[derive(Debug, Clone)]
pub struct MeResponse {
    pub user: MeUser,
}
#[derive(Debug, Clone)]
pub struct MeUser {
    pub id: String,
    pub display_name: String,
    pub email: String,
    pub role: String,
    pub sync_predictions_across_pools: bool,
}
#[derive(Debug, Clone)]
pub struct UpdateUserPreferencesRequest {
    pub sync_predictions_across_pools: bool,
}
/// What the signed-in user sees of themself.
pub fn me_response(user: &User) -> (r: MeResponse)
    ensures
        r.user.id == user.id,
        r.user.display_name == user.display_name,
        r.user.email == user.email,
        r.user.role@ == user_role_text(user.role),
        r.user.sync_predictions_across_pools == user.sync_predictions_across_pools,
{
    MeResponse {
        user: MeUser {
            id: user.id.clone(),
            display_name: user.display_name.clone(),
            email: user.email.clone(),
            role: String::from_str(user.role.as_str()),
            sync_predictions_across_pools: user.sync_predictions_across_pools,
        },
    }
}


} // verus!
