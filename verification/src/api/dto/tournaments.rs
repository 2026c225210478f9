use vstd::prelude::*;

use crate::domain::entities::{Tournament, TournamentGroup, TournamentStage, TournamentTeam};
use crate::domain::kinds::{stage_kind_text, tournament_status_text};
use crate::text::clone_opt;
use crate::tournaments::{
    AssignTeam, CreateGroup, CreateStage, CreateTournament, TournamentDetail, UpdateGroup,
    UpdateStage, UpdateTournament,
};

verus! {

#[derive(Debug, Clone)]
pub struct CreateTournamentRequest {
    pub name: String,
    pub slug: String,
    pub season_year: Option<u16>,
    pub starts_on: Option<String>,
    pub ends_on: Option<String>,
}
impl From<CreateTournamentRequest> for CreateTournament {
    fn from(value: CreateTournamentRequest) -> (r: Self) {
        CreateTournament {
            name: value.name,
            slug: value.slug,
            season_year: value.season_year,
            starts_on: value.starts_on,
            ends_on: value.ends_on,
        }
    }
}

impl vstd::std_specs::convert::FromSpecImpl<CreateTournamentRequest> for CreateTournament {
    open spec fn obeys_from_spec() -> bool {
        true
    }

    open spec fn from_spec(value: CreateTournamentRequest) -> Self {
        CreateTournament {
            name: value.name,
            slug: value.slug,
            season_year: value.season_year,
            starts_on: value.starts_on,
            ends_on: value.ends_on,
        }
    }
}
#[derive(Debug, Clone)]
pub struct UpdateTournamentRequest {
    pub name: String,
    pub slug: String,
    pub season_year: Option<u16>,
    pub starts_on: Option<String>,
    pub ends_on: Option<String>,
    pub status: String,
}
impl From<UpdateTournamentRequest> for UpdateTournament {
    fn from(value: UpdateTournamentRequest) -> (r: Self) {
        UpdateTournament {
            name: value.name,
            slug: value.slug,
            season_year: value.season_year,
            starts_on: value.starts_on,
            ends_on: value.ends_on,
            status: value.status,
        }
    }
}

impl vstd::std_specs::convert::FromSpecImpl<UpdateTournamentRequest> for UpdateTournament {
    open spec fn obeys_from_spec() -> bool {
        true
    }

    open spec fn from_spec(value: UpdateTournamentRequest) -> Self {
        UpdateTournament {
            name: value.name,
            slug: value.slug,
            season_year: value.season_year,
            starts_on: value.starts_on,
            ends_on: value.ends_on,
            status: value.status,
        }
    }
}
#[derive(Debug, Clone)]
pub struct CreateStageRequest {
    pub name: String,
    pub kind: String,
    pub ordering: u16,
}
impl From<CreateStageRequest> for CreateStage {
    fn from(value: CreateStageRequest) -> (r: Self) {
        CreateStage {
            name: value.name,
            kind: value.kind,
            ordering: value.ordering,
        }
    }
}

impl vstd::std_specs::convert::FromSpecImpl<CreateStageRequest> for CreateStage {
    open spec fn obeys_from_spec() -> bool {
        true
    }

    open spec fn from_spec(value: CreateStageRequest) -> Self {
        CreateStage {
            name: value.name,
            kind: value.kind,
            ordering: value.ordering,
        }
    }
}
#[derive(Debug, Clone)]
pub struct UpdateStageRequest {
    pub name: String,
    pub kind: String,
    pub ordering: u16,
}
impl From<UpdateStageRequest> for UpdateStage {
    fn from(value: UpdateStageRequest) -> (r: Self) {
        UpdateStage {
            name: value.name,
            kind: value.kind,
            ordering: value.ordering,
        }
    }
}

impl vstd::std_specs::convert::FromSpecImpl<UpdateStageRequest> for UpdateStage {
    open spec fn obeys_from_spec() -> bool {
        true
    }

    open spec fn from_spec(value: UpdateStageRequest) -> Self {
        UpdateStage {
            name: value.name,
            kind: value.kind,
            ordering: value.ordering,
        }
    }
}
#[derive(Debug, Clone)]
pub struct CreateGroupRequest {
    pub label: String,
}
impl From<CreateGroupRequest> for CreateGroup {
    fn from(value: CreateGroupRequest) -> (r: Self) {
        CreateGroup {
            label: value.label,
        }
    }
}

impl vstd::std_specs::convert::FromSpecImpl<CreateGroupRequest> for CreateGroup {
    open spec fn obeys_from_spec() -> bool {
        true
    }

    open spec fn from_spec(value: CreateGroupRequest) -> Self {
        CreateGroup {
            label: value.label,
        }
    }
}
#[derive(Debug, Clone)]
pub struct UpdateGroupRequest {
    pub label: String,
}
impl From<UpdateGroupRequest> for UpdateGroup {
    fn from(value: UpdateGroupRequest) -> (r: Self) {
        UpdateGroup {
            label: value.label,
        }
    }
}

impl vstd::std_specs::convert::FromSpecImpl<UpdateGroupRequest> for UpdateGroup {
    open spec fn obeys_from_spec() -> bool {
        true
    }

    open spec fn from_spec(value: UpdateGroupRequest) -> Self {
        UpdateGroup {
            label: value.label,
        }
    }
}
#[derive(Debug, Clone)]
pub struct AssignTeamRequest {
    pub team_id: String,
    pub group_id: Option<String>,
}
impl From<AssignTeamRequest> for AssignTeam {
    fn from(value: AssignTeamRequest) -> (r: Self) {
        AssignTeam {
            team_id: value.team_id,
            group_id: value.group_id,
        }
    }
}

impl vstd::std_specs::convert::FromSpecImpl<AssignTeamRequest> for AssignTeam {
    open spec fn obeys_from_spec() -> bool {
        true
    }

    open spec fn from_spec(value: AssignTeamRequest) -> Self {
        AssignTeam {
            team_id: value.team_id,
            group_id: value.group_id,
        }
    }
}
#[derive(Debug, Clone)]
pub struct TournamentResponse {
    pub id: String,
    pub name: String,
    pub slug: String,
    pub season_year: Option<u16>,
    pub starts_on: Option<String>,
    pub ends_on: Option<String>,
    pub status: String,
}
/// The fields of a `TournamentResponse` taken from a `Tournament`.
pub open spec fn tournamentresponse_of(r: TournamentResponse, tournament: Tournament) -> bool {
    &&& r.id == tournament.id
    &&& r.name == tournament.name
    &&& r.slug == tournament.slug
    &&& r.season_year == tournament.season_year
    &&& r.starts_on == tournament.starts_on
    &&& r.ends_on == tournament.ends_on
    &&& r.status@ == tournament_status_text(tournament.status)
}

impl TournamentResponse {
    pub fn from_tournament(tournament: &Tournament) -> (r: Self)
        ensures
            tournamentresponse_of(r, *tournament),
    {
        TournamentResponse {
            id: tournament.id.clone(),
            name: tournament.name.clone(),
            slug: tournament.slug.clone(),
            season_year: tournament.season_year,
            starts_on: clone_opt(&tournament.starts_on),
            ends_on: clone_opt(&tournament.ends_on),
            status: String::from_str(tournament.status.as_str()),
        }
    }
}
#[derive(Debug, Clone)]
pub struct TournamentsListResponse {
    pub tournaments: Vec<TournamentResponse>,
}
#[derive(Debug, Clone)]
pub struct StageResponse {
    pub id: String,
    pub tournament_id: String,
    pub name: String,
    pub kind: String,
    pub ordering: u16,
}
/// The fields of a `StageResponse` taken from a `TournamentStage`.
pub open spec fn stageresponse_of(r: StageResponse, stage: TournamentStage) -> bool {
    &&& r.id == stage.id
    &&& r.tournament_id == stage.tournament_id
    &&& r.name == stage.name
    &&& r.kind@ == stage_kind_text(stage.kind)
    &&& r.ordering == stage.ordering
}

impl StageResponse {
    pub fn from_stage(stage: &TournamentStage) -> (r: Self)
        ensures
            stageresponse_of(r, *stage),
    {
        StageResponse {
            id: stage.id.clone(),
            tournament_id: stage.tournament_id.clone(),
            name: stage.name.clone(),
            kind: String::from_str(stage.kind.as_str()),
            ordering: stage.ordering,
        }
    }
}
#[derive(Debug, Clone)]
pub struct GroupResponse {
    pub id: String,
    pub tournament_id: String,
    pub label: String,
}
/// The fields of a `GroupResponse` taken from a `TournamentGroup`.
pub open spec fn groupresponse_of(r: GroupResponse, group: TournamentGroup) -> bool {
    &&& r.id == group.id
    &&& r.tournament_id == group.tournament_id
    &&& r.label == group.label
}

impl GroupResponse {
    pub fn from_group(group: &TournamentGroup) -> (r: Self)
        ensures
            groupresponse_of(r, *group),
    {
        GroupResponse {
            id: group.id.clone(),
            tournament_id: group.tournament_id.clone(),
            label: group.label.clone(),
        }
    }
}
#[derive(Debug, Clone)]
pub struct TournamentDetailResponse {
    pub tournament: TournamentResponse,
    pub stages: Vec<StageResponse>,
    pub groups: Vec<GroupResponse>,
}
impl TournamentDetailResponse {
    pub fn from_detail(detail: &TournamentDetail) -> (r: Self)
        ensures
            tournamentresponse_of(r.tournament, detail.tournament),
            r.stages.len() == detail.stages.len(),
            forall|k: int| 0 <= k < r.stages.len() ==> stageresponse_of(#[trigger] r.stages@[k], detail.stages@[k]),
            r.groups.len() == detail.groups.len(),
            forall|k: int| 0 <= k < r.groups.len() ==> groupresponse_of(#[trigger] r.groups@[k], detail.groups@[k]),
    {
        let mut stages: Vec<StageResponse> = Vec::new();
        let mut i: usize = 0;
        while i < detail.stages.len()
            invariant
                i <= detail.stages.len(),
                stages.len() == i,
                forall|k: int| 0 <= k < i ==> stageresponse_of(#[trigger] stages@[k], detail.stages@[k]),
            decreases detail.stages.len() - i,
        {
            stages.push(StageResponse::from_stage(&detail.stages[i]));
            i = i + 1;
        }
        let mut groups: Vec<GroupResponse> = Vec::new();
        let mut j: usize = 0;
        while j < detail.groups.len()
            invariant
                j <= detail.groups.len(),
                groups.len() == j,
                forall|k: int| 0 <= k < j ==> groupresponse_of(#[trigger] groups@[k], detail.groups@[k]),
            decreases detail.groups.len() - j,
        {
            groups.push(GroupResponse::from_group(&detail.groups[j]));
            j = j + 1;
        }
        TournamentDetailResponse {
            tournament: TournamentResponse::from_tournament(&detail.tournament),
            stages,
            groups,
        }
    }
}

#[derive(Debug, Clone)]
pub struct TournamentTeamResponse {
    pub id: String,
    pub tournament_id: String,
    pub team_id: String,
    pub group_id: Option<String>,
}
/// The fields of a `TournamentTeamResponse` taken from a `TournamentTeam`.
pub open spec fn tournamentteamresponse_of(r: TournamentTeamResponse, assignment: TournamentTeam) -> bool {
    &&& r.id == assignment.id
    &&& r.tournament_id == assignment.tournament_id
    &&& r.team_id == assignment.team_id
    &&& r.group_id == assignment.group_id
}

impl TournamentTeamResponse {
    pub fn from_assignment(assignment: &TournamentTeam) -> (r: Self)
        ensures
            tournamentteamresponse_of(r, *assignment),
    {
        TournamentTeamResponse {
            id: assignment.id.clone(),
            tournament_id: assignment.tournament_id.clone(),
            team_id: assignment.team_id.clone(),
            group_id: clone_opt(&assignment.group_id),
        }
    }
}
#[derive(Debug, Clone)]
pub struct TournamentTeamsListResponse {
    pub teams: Vec<TournamentTeamResponse>,
}

} // verus!
