use vstd::prelude::*;

use crate::domain::entities::Match;
use crate::domain::kinds::match_status_text;
use crate::matches::{CreateMatch, MatchFilters, UpdateMatch};
use crate::text::clone_opt;

verus! {

#[derive(Debug, Clone)]
pub struct CreateMatchRequest {
    pub stage_id: String,
    pub home_team_id: Option<String>,
    pub away_team_id: Option<String>,
    pub kickoff_at: String,
}
impl From<CreateMatchRequest> for CreateMatch {
    fn from(value: CreateMatchRequest) -> (r: Self) {
        CreateMatch {
            stage_id: value.stage_id,
            home_team_id: value.home_team_id,
            away_team_id: value.away_team_id,
            kickoff_at: value.kickoff_at,
        }
    }
}

impl vstd::std_specs::convert::FromSpecImpl<CreateMatchRequest> for CreateMatch {
    open spec fn obeys_from_spec() -> bool {
        true
    }

    open spec fn from_spec(value: CreateMatchRequest) -> Self {
        CreateMatch {
            stage_id: value.stage_id,
            home_team_id: value.home_team_id,
            away_team_id: value.away_team_id,
            kickoff_at: value.kickoff_at,
        }
    }
}
#[derive(Debug, Clone)]
pub struct UpdateMatchRequest {
    pub stage_id: String,
    pub home_team_id: Option<String>,
    pub away_team_id: Option<String>,
    pub kickoff_at: String,
    pub status: String,
}
impl From<UpdateMatchRequest> for UpdateMatch {
    fn from(value: UpdateMatchRequest) -> (r: Self) {
        UpdateMatch {
            stage_id: value.stage_id,
            home_team_id: value.home_team_id,
            away_team_id: value.away_team_id,
            kickoff_at: value.kickoff_at,
            status: value.status,
        }
    }
}

impl vstd::std_specs::convert::FromSpecImpl<UpdateMatchRequest> for UpdateMatch {
    open spec fn obeys_from_spec() -> bool {
        true
    }

    open spec fn from_spec(value: UpdateMatchRequest) -> Self {
        UpdateMatch {
            stage_id: value.stage_id,
            home_team_id: value.home_team_id,
            away_team_id: value.away_team_id,
            kickoff_at: value.kickoff_at,
            status: value.status,
        }
    }
}
#[derive(Debug, Clone)]
pub struct MatchFilterQuery {
    pub stage: Option<String>,
    pub status: Option<String>,
    pub date_from: Option<String>,
    pub date_to: Option<String>,
}
impl From<MatchFilterQuery> for MatchFilters {
    fn from(value: MatchFilterQuery) -> (r: Self) {
        MatchFilters {
            stage_id: value.stage,
            status: value.status,
            date_from: value.date_from,
            date_to: value.date_to,
        }
    }
}

impl vstd::std_specs::convert::FromSpecImpl<MatchFilterQuery> for MatchFilters {
    open spec fn obeys_from_spec() -> bool {
        true
    }

    open spec fn from_spec(value: MatchFilterQuery) -> Self {
        MatchFilters {
            stage_id: value.stage,
            status: value.status,
            date_from: value.date_from,
            date_to: value.date_to,
        }
    }
}
#[derive(Debug, Clone)]
pub struct MatchResponse {
    pub id: String,
    pub tournament_id: String,
    pub stage_id: String,
    pub home_team_id: Option<String>,
    pub away_team_id: Option<String>,
    pub kickoff_at: String,
    pub status: String,
    pub home_score: Option<u8>,
    pub away_score: Option<u8>,
    pub finished_at: Option<String>,
}
/// The fields of a `MatchResponse` taken from a `Match`.
pub open spec fn matchresponse_of(r: MatchResponse, value: Match) -> bool {
    &&& r.id == value.id
    &&& r.tournament_id == value.tournament_id
    &&& r.stage_id == value.stage_id
    &&& r.home_team_id == value.home_team_id
    &&& r.away_team_id == value.away_team_id
    &&& r.kickoff_at == value.kickoff_at
    &&& r.status@ == match_status_text(value.status)
    &&& r.home_score == match value.home_score { Some(s) => Some(s.value), None => None::<u8> }
    &&& r.away_score == match value.away_score { Some(s) => Some(s.value), None => None::<u8> }
    &&& r.finished_at == value.finished_at
}

impl MatchResponse {
    pub fn from_match(value: &Match) -> (r: Self)
        ensures
            matchresponse_of(r, *value),
    {
        MatchResponse {
            id: value.id.clone(),
            tournament_id: value.tournament_id.clone(),
            stage_id: value.stage_id.clone(),
            home_team_id: clone_opt(&value.home_team_id),
            away_team_id: clone_opt(&value.away_team_id),
            kickoff_at: value.kickoff_at.clone(),
            status: String::from_str(value.status.as_str()),
            home_score: match value.home_score { Some(s) => Some(s.value()), None => None },
            away_score: match value.away_score { Some(s) => Some(s.value()), None => None },
            finished_at: clone_opt(&value.finished_at),
        }
    }
}
#[derive(Debug, Clone)]
pub struct MatchesListResponse {
    pub matches: Vec<MatchResponse>,
}

} // verus!
