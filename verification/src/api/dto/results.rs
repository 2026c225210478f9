use vstd::prelude::*;

use crate::results::{
    EnterResult, HistoryEntry, HistorySummary, MemberPredictionView, Ranking, StandingWithName,
};
use crate::text::clone_opt;

verus! {

#[derive(Debug, Clone)]
pub struct EnterResultRequest {
    pub home_score: u8,
    pub away_score: u8,
}
impl From<EnterResultRequest> for EnterResult {
    fn from(value: EnterResultRequest) -> (r: Self) {
        EnterResult {
            home_score: value.home_score,
            away_score: value.away_score,
            penalties_winner: None,
        }
    }
}

impl vstd::std_specs::convert::FromSpecImpl<EnterResultRequest> for EnterResult {
    open spec fn obeys_from_spec() -> bool {
        true
    }

    open spec fn from_spec(value: EnterResultRequest) -> Self {
        EnterResult {
            home_score: value.home_score,
            away_score: value.away_score,
            penalties_winner: None,
        }
    }
}
#[derive(Debug, Clone)]
pub struct RankingEntryResponse {
    pub pool_member_id: String,
    pub display_name: String,
    pub total_points: i32,
    pub exact_count: i32,
    pub outcome_count: i32,
    pub hits_count: i32,
    pub position: i32,
}
/// The fields of a `RankingEntryResponse` taken from a `StandingWithName`.
pub open spec fn rankingentryresponse_of(r: RankingEntryResponse, value: StandingWithName) -> bool {
    &&& r.pool_member_id == value.standing.pool_member_id
    &&& r.display_name == value.display_name
    &&& r.total_points == value.standing.total_points
    &&& r.exact_count == value.standing.exact_count
    &&& r.outcome_count == value.standing.outcome_count
    &&& r.hits_count == value.standing.hits_count
    &&& r.position == value.standing.position
}

impl RankingEntryResponse {
    pub fn from_entry(value: &StandingWithName) -> (r: Self)
        ensures
            rankingentryresponse_of(r, *value),
    {
        RankingEntryResponse {
            pool_member_id: value.standing.pool_member_id.clone(),
            display_name: value.display_name.clone(),
            total_points: value.standing.total_points,
            exact_count: value.standing.exact_count,
            outcome_count: value.standing.outcome_count,
            hits_count: value.standing.hits_count,
            position: value.standing.position,
        }
    }
}
#[derive(Debug, Clone)]
pub struct RankingResponse {
    pub standings: Vec<RankingEntryResponse>,
}
impl RankingResponse {
    /// The ranking as answered: one entry per standing, in order.
    pub fn from_ranking(value: &Ranking) -> (r: Self)
        ensures
            r.standings.len() == value.standings.len(),
            forall|k: int|
                0 <= k < r.standings.len() ==> rankingentryresponse_of(
                    #[trigger] r.standings@[k],
                    value.standings@[k],
                ),
    {
        let mut standings: Vec<RankingEntryResponse> = Vec::new();
        let mut i: usize = 0;
        while i < value.standings.len()
            invariant
                i <= value.standings.len(),
                standings.len() == i,
                forall|k: int|
                    0 <= k < i ==> rankingentryresponse_of(
                        #[trigger] standings@[k],
                        value.standings@[k],
                    ),
            decreases value.standings.len() - i,
        {
            standings.push(RankingEntryResponse::from_entry(&value.standings[i]));
            i = i + 1;
        }
        RankingResponse { standings }
    }
}

#[derive(Debug, Clone)]
pub struct HistoryEntryResponse {
    pub match_id: String,
    pub match_status: String,
    pub kickoff_at: String,
    pub prediction_home: u8,
    pub prediction_away: u8,
    pub result_home: Option<u8>,
    pub result_away: Option<u8>,
    pub points_awarded: Option<i16>,
    pub hit_kind: Option<String>,
}
/// The fields of a `HistoryEntryResponse` taken from a `HistoryEntry`.
pub open spec fn historyentryresponse_of(r: HistoryEntryResponse, value: HistoryEntry) -> bool {
    &&& r.match_id == value.match_id
    &&& r.match_status == value.match_status
    &&& r.kickoff_at == value.kickoff_at
    &&& r.prediction_home == value.prediction_home
    &&& r.prediction_away == value.prediction_away
    &&& r.result_home == value.result_home
    &&& r.result_away == value.result_away
    &&& r.points_awarded == value.points_awarded
    &&& r.hit_kind == value.hit_kind
}

impl HistoryEntryResponse {
    pub fn from_entry(value: &HistoryEntry) -> (r: Self)
        ensures
            historyentryresponse_of(r, *value),
    {
        HistoryEntryResponse {
            match_id: value.match_id.clone(),
            match_status: value.match_status.clone(),
            kickoff_at: value.kickoff_at.clone(),
            prediction_home: value.prediction_home,
            prediction_away: value.prediction_away,
            result_home: value.result_home,
            result_away: value.result_away,
            points_awarded: value.points_awarded,
            hit_kind: clone_opt(&value.hit_kind),
        }
    }
}
#[derive(Debug, Clone)]
pub struct HistoryResponse {
    pub pool_member_id: String,
    pub total_points: i32,
    pub exact_count: i32,
    pub outcome_count: i32,
    pub hits_count: i32,
    pub errors_count: i32,
    pub pending_count: i32,
    pub entries: Vec<HistoryEntryResponse>,
}
impl HistoryResponse {
    /// A member's history as answered: the totals and one entry per line, in order.
    pub fn from_summary(value: &HistorySummary) -> (r: Self)
        ensures
            r.pool_member_id == value.pool_member_id,
            r.total_points == value.total_points,
            r.exact_count == value.exact_count,
            r.outcome_count == value.outcome_count,
            r.hits_count == value.hits_count,
            r.errors_count == value.errors_count,
            r.pending_count == value.pending_count,
            r.entries.len() == value.entries.len(),
            forall|k: int|
                0 <= k < r.entries.len() ==> historyentryresponse_of(
                    #[trigger] r.entries@[k],
                    value.entries@[k],
                ),
    {
        let mut entries: Vec<HistoryEntryResponse> = Vec::new();
        let mut i: usize = 0;
        while i < value.entries.len()
            invariant
                i <= value.entries.len(),
                entries.len() == i,
                forall|k: int|
                    0 <= k < i ==> historyentryresponse_of(
                        #[trigger] entries@[k],
                        value.entries@[k],
                    ),
            decreases value.entries.len() - i,
        {
            entries.push(HistoryEntryResponse::from_entry(&value.entries[i]));
            i = i + 1;
        }
        HistoryResponse {
            pool_member_id: value.pool_member_id.clone(),
            total_points: value.total_points,
            exact_count: value.exact_count,
            outcome_count: value.outcome_count,
            hits_count: value.hits_count,
            errors_count: value.errors_count,
            pending_count: value.pending_count,
            entries,
        }
    }
}

#[derive(Debug, Clone)]
pub struct MemberPredictionResponse {
    pub match_id: String,
    pub match_status: String,
    pub kickoff_at: String,
    pub prediction_home: u8,
    pub prediction_away: u8,
    pub result_home: Option<u8>,
    pub result_away: Option<u8>,
    pub points_awarded: Option<i16>,
}
/// The fields of a `MemberPredictionResponse` taken from a `MemberPredictionView`.
pub open spec fn memberpredictionresponse_of(r: MemberPredictionResponse, value: MemberPredictionView) -> bool {
    &&& r.match_id == value.match_id
    &&& r.match_status == value.match_status
    &&& r.kickoff_at == value.kickoff_at
    &&& r.prediction_home == value.prediction_home
    &&& r.prediction_away == value.prediction_away
    &&& r.result_home == value.result_home
    &&& r.result_away == value.result_away
    &&& r.points_awarded == value.points_awarded
}

impl MemberPredictionResponse {
    pub fn from_view(value: &MemberPredictionView) -> (r: Self)
        ensures
            memberpredictionresponse_of(r, *value),
    {
        MemberPredictionResponse {
            match_id: value.match_id.clone(),
            match_status: value.match_status.clone(),
            kickoff_at: value.kickoff_at.clone(),
            prediction_home: value.prediction_home,
            prediction_away: value.prediction_away,
            result_home: value.result_home,
            result_away: value.result_away,
            points_awarded: value.points_awarded,
        }
    }
}
#[derive(Debug, Clone)]
pub struct MemberPredictionsResponse {
    pub predictions: Vec<MemberPredictionResponse>,
}
impl MemberPredictionsResponse {
    /// A member's visible predictions as answered, in order.
    pub fn from_views(values: &[MemberPredictionView]) -> (r: Self)
        ensures
            r.predictions.len() == values.len(),
            forall|k: int|
                0 <= k < r.predictions.len() ==> memberpredictionresponse_of(
                    #[trigger] r.predictions@[k],
                    values@[k],
                ),
    {
        let mut predictions: Vec<MemberPredictionResponse> = Vec::new();
        let mut i: usize = 0;
        while i < values.len()
            invariant
                i <= values.len(),
                predictions.len() == i,
                forall|k: int|
                    0 <= k < i ==> memberpredictionresponse_of(
                        #[trigger] predictions@[k],
                        values@[k],
                    ),
            decreases values.len() - i,
        {
            predictions.push(MemberPredictionResponse::from_view(&values[i]));
            i = i + 1;
        }
        MemberPredictionsResponse { predictions }
    }
}


} // verus!
