use vstd::prelude::*;

use crate::domain::entities::Prediction;
use crate::predictions::UpsertPrediction;
use crate::text::clone_opt;

verus! {

#[derive(Debug, Clone)]
pub struct UpsertPredictionRequest {
    pub home_score: u8,
    pub away_score: u8,
    /// "home" or "away": who wins the shootout, for a predicted draw of a
    /// match that can go to penalties.
    pub penalties_pick: Option<String>,
}
impl From<UpsertPredictionRequest> for UpsertPrediction {
    fn from(value: UpsertPredictionRequest) -> (r: Self) {
        UpsertPrediction {
            home_score: value.home_score,
            away_score: value.away_score,
            penalties_pick: value.penalties_pick,
        }
    }
}

impl vstd::std_specs::convert::FromSpecImpl<UpsertPredictionRequest> for UpsertPrediction {
    open spec fn obeys_from_spec() -> bool {
        true
    }

    open spec fn from_spec(value: UpsertPredictionRequest) -> Self {
        UpsertPrediction {
            home_score: value.home_score,
            away_score: value.away_score,
            penalties_pick: value.penalties_pick,
        }
    }
}
#[derive(Debug, Clone)]
pub struct PredictionResponse {
    pub id: String,
    pub match_id: String,
    pub home_score: u8,
    pub away_score: u8,
    pub points_awarded: Option<i16>,
    pub scored_at: Option<String>,
}
/// The fields of a `PredictionResponse` taken from a `Prediction`.
pub open spec fn predictionresponse_of(r: PredictionResponse, value: Prediction) -> bool {
    &&& r.id == value.id
    &&& r.match_id == value.match_id
    &&& r.home_score == value.home_score.value
    &&& r.away_score == value.away_score.value
    &&& r.points_awarded == value.points_awarded
    &&& r.scored_at == value.scored_at
}

impl PredictionResponse {
    pub fn from_prediction(value: &Prediction) -> (r: Self)
        ensures
            predictionresponse_of(r, *value),
    {
        PredictionResponse {
            id: value.id.clone(),
            match_id: value.match_id.clone(),
            home_score: value.home_score.value(),
            away_score: value.away_score.value(),
            points_awarded: value.points_awarded,
            scored_at: clone_opt(&value.scored_at),
        }
    }
}
#[derive(Debug, Clone)]
pub struct PredictionsListResponse {
    pub predictions: Vec<PredictionResponse>,
}

} // verus!
