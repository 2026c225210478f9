use vstd::prelude::*;

use crate::domain::entities::Team;
use crate::teams::{CreateTeam, UpdateTeam};
use crate::text::clone_opt;

verus! {

#[derive(Debug, Clone)]
pub struct CreateTeamRequest {
    pub name: String,
    pub code: String,
    pub flag_emoji: Option<String>,
}
impl From<CreateTeamRequest> for CreateTeam {
    fn from(value: CreateTeamRequest) -> (r: Self) {
        CreateTeam {
            name: value.name,
            code: value.code,
            flag_emoji: value.flag_emoji,
        }
    }
}

impl vstd::std_specs::convert::FromSpecImpl<CreateTeamRequest> for CreateTeam {
    open spec fn obeys_from_spec() -> bool {
        true
    }

    open spec fn from_spec(value: CreateTeamRequest) -> Self {
        CreateTeam {
            name: value.name,
            code: value.code,
            flag_emoji: value.flag_emoji,
        }
    }
}
#[derive(Debug, Clone)]
pub struct UpdateTeamRequest {
    pub name: String,
    pub code: String,
    pub flag_emoji: Option<String>,
}
impl From<UpdateTeamRequest> for UpdateTeam {
    fn from(value: UpdateTeamRequest) -> (r: Self) {
        UpdateTeam {
            name: value.name,
            code: value.code,
            flag_emoji: value.flag_emoji,
        }
    }
}

impl vstd::std_specs::convert::FromSpecImpl<UpdateTeamRequest> for UpdateTeam {
    open spec fn obeys_from_spec() -> bool {
        true
    }

    open spec fn from_spec(value: UpdateTeamRequest) -> Self {
        UpdateTeam {
            name: value.name,
            code: value.code,
            flag_emoji: value.flag_emoji,
        }
    }
}
#[derive(Debug, Clone)]
pub struct TeamResponse {
    pub id: String,
    pub name: String,
    pub code: String,
    pub flag_emoji: Option<String>,
    pub flag_file_id: Option<String>,
}
/// The fields of a `TeamResponse` taken from a `Team`.
pub open spec fn teamresponse_of(r: TeamResponse, team: Team) -> bool {
    &&& r.id == team.id
    &&& r.name == team.name
    &&& r.code == team.code
    &&& r.flag_emoji == team.flag_emoji
    &&& r.flag_file_id == team.flag_file_id
}

impl TeamResponse {
    pub fn from_team(team: &Team) -> (r: Self)
        ensures
            teamresponse_of(r, *team),
    {
        TeamResponse {
            id: team.id.clone(),
            name: team.name.clone(),
            code: team.code.clone(),
            flag_emoji: clone_opt(&team.flag_emoji),
            flag_file_id: clone_opt(&team.flag_file_id),
        }
    }
}
#[derive(Debug, Clone)]
pub struct TeamsListResponse {
    pub teams: Vec<TeamResponse>,
}

} // verus!
