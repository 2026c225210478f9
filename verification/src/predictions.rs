//! When a prediction may be saved, and where it is copied to.

use vstd::prelude::*;

use crate::domain::entities::{Match, Pool};
use crate::domain::kinds::{penalty_side_from_text, MatchStatus, PenaltySide, PoolStatus};
use crate::domain::values::{Score, MAX_SCORE};
use crate::ids::new_id;
use crate::error::{is_coded, is_internal, is_validation, AppError, CodedKind};
use crate::text::str_eq;
use crate::time::{before_shifted, earlier, moment_of, parse_datetime, parsed_moment, shifted_secs, Moment};

verus! {

#[derive(Debug, Clone)]
pub struct UpsertPrediction {
    pub home_score: u8,
    pub away_score: u8,
    /// Raw "home"/"away" pick for the penalty shootout, only meaningful when the
    /// match can go to penalties and the predicted score is a draw.
    pub penalties_pick: Option<String>,
}

#[derive(Debug, Clone)]
pub struct UpsertPredictionRecord {
    pub prediction_id: String,
    pub pool_member_id: String,
    pub match_id: String,
    pub home_score: u8,
    pub away_score: u8,
    /// The shootout pick kept with the prediction, if any.
    pub penalties_pick: Option<PenaltySide>,
}

/// Entry point of predictions; holds the repositories and the clock the
/// caller drives.
pub struct PredictionUseCases<PredR, MatchR, PoolR, MemberR, C> {
    pub predictions: PredR,
    pub matches: MatchR,
    pub pools: PoolR,
    pub members: MemberR,
    pub clock: C,
}

impl<PredR, MatchR, PoolR, MemberR, C> PredictionUseCases<PredR, MatchR, PoolR, MemberR, C> {
    pub fn new(predictions: PredR, matches: MatchR, pools: PoolR, members: MemberR, clock: C) -> (r: Self)
        ensures
            r.predictions == predictions,
            r.matches == matches,
            r.pools == pools,
            r.members == members,
            r.clock == clock,
    {
        PredictionUseCases { predictions, matches, pools, members, clock }
    }
}

pub fn locked() -> (e: AppError)
    ensures
        is_coded(e, CodedKind::Validation, "prediction_locked"@, "predictions for this match are locked"@),
{
    AppError::validation_code("prediction_locked", "predictions for this match are locked")
}

/// Predictions open this many minutes (five days) before kickoff.
pub const OPENING_MINUTES: i64 = 7200;

/// The prediction window of a match: closed unless the match is scheduled;
/// open strictly after five days before kickoff and strictly before the
/// pool's lock time (kickoff minus the pool's offset).
pub open spec fn window_verdict(status: MatchStatus, kickoff: Moment, lock_offset: int, now: Moment) -> Result<(), Seq<char>> {
    if status != MatchStatus::Scheduled {
        Err("prediction_locked"@)
    } else if !earlier(
        shifted_secs(kickoff, -7200),
        kickoff.nanos as int,
        now.secs as int,
        now.nanos as int,
    ) {
        Err("prediction_not_open_yet"@)
    } else if earlier(
        now.secs as int,
        now.nanos as int,
        shifted_secs(kickoff, -lock_offset),
        kickoff.nanos as int,
    ) {
        Ok(())
    } else {
        Err("prediction_locked"@)
    }
}

pub open spec fn window_error(e: AppError, code: Seq<char>) -> bool {
    if code == "prediction_locked"@ {
        is_coded(e, CodedKind::Validation, code, "predictions for this match are locked"@)
    } else {
        is_coded(e, CodedKind::Validation, code, "predictions for this match are not open yet"@)
    }
}

/// Whether predictions for a match may be saved now in a pool with the given
/// lock offset.
pub fn ensure_open(status: MatchStatus, kickoff_at: &str, lock_offset_minutes: u16, now_text: &str) -> (r: Result<(), AppError>)
    ensures
        status != MatchStatus::Scheduled ==> (r matches Err(e) && window_error(e, "prediction_locked"@)),
        status == MatchStatus::Scheduled ==> match moment_of(parsed_moment(kickoff_at@)) {
            None => (r matches Err(e) && is_internal(e, "match kickoff_at is not a valid date-time"@)),
            Some(kickoff) => match moment_of(parsed_moment(now_text@)) {
                None => (r matches Err(e) && is_internal(e, "clock produced an invalid date-time"@)),
                Some(now) => match window_verdict(status, kickoff, lock_offset_minutes as int, now) {
                    Ok(()) => r is Ok,
                    Err(code) => (r matches Err(e) && window_error(e, code)),
                },
            },
        },
{
    proof {
        reveal_strlit("prediction_locked");
        reveal_strlit("prediction_not_open_yet");
        assert("prediction_locked"@.len() != "prediction_not_open_yet"@.len());
    }
    if status != MatchStatus::Scheduled {
        return Err(locked());
    }
    let kickoff = match parse_datetime(kickoff_at) {
        Some(k) => k,
        None => return Err(AppError::internal("match kickoff_at is not a valid date-time")),
    };
    let now = match parse_datetime(now_text) {
        Some(n) => n,
        None => return Err(AppError::internal("clock produced an invalid date-time")),
    };
    // now <= kickoff - 5 days
    let open = {
        let opens = kickoff.secs as i128 - OPENING_MINUTES as i128 * 60;
        let ns = now.secs as i128;
        opens < ns || (opens == ns && kickoff.nanos < now.nanos)
    };
    if !open {
        return Err(
            AppError::validation_code(
                "prediction_not_open_yet",
                "predictions for this match are not open yet",
            ),
        );
    }
    if before_shifted(now, kickoff, -(lock_offset_minutes as i64)) {
        Ok(())
    } else {
        Err(locked())
    }
}

pub open spec fn teams_defined(game: Match) -> bool {
    game.home_team_id is Some && game.away_team_id is Some
}

/// The shootout pick a prediction keeps: where the match can go to penalties
/// and the predicted score is a draw, the pick read as a side (none when it
/// names no side); otherwise no pick, whatever was sent.
pub open spec fn pick_verdict(
    can_go_to_penalties: bool,
    home: int,
    away: int,
    pick: Option<Seq<char>>,
) -> Option<PenaltySide> {
    if can_go_to_penalties && home == away {
        match pick {
            None => None,
            Some(t) => penalty_side_from_text(t),
        }
    } else {
        None
    }
}

pub open spec fn opt_text(pick: Option<String>) -> Option<Seq<char>> {
    match pick {
        Some(t) => Some(t@),
        None => None,
    }
}

/// Reads the shootout pick of a prediction by `pick_verdict`.
pub fn resolve_prediction_pick(game: &Match, home_score: u8, away_score: u8, pick: &Option<String>) -> (r: Option<
    PenaltySide,
>)
    ensures
        r == pick_verdict(game.can_go_to_penalties, home_score as int, away_score as int, opt_text(*pick)),
{
    if !(game.can_go_to_penalties && home_score == away_score) {
        return None;
    }
    match pick {
        None => None,
        Some(t) => match PenaltySide::parse(t.as_str()) {
            Ok(side) => Some(side),
            Err(_) => None,
        },
    }
}

/// The checks of a prediction against its pool and match, before the window:
/// same tournament, both teams known, valid scores; the shootout pick is
/// kept by `pick_verdict`.
pub fn check_prediction_target(pool: &Pool, game: &Match, command: &UpsertPrediction) -> (r: Result<
    (Score, Score, Option<PenaltySide>),
    AppError,
>)
    ensures
        game.tournament_id@ != pool.tournament_id@ ==> (r matches Err(e) && is_coded(
            e,
            CodedKind::Conflict,
            "match_not_in_pool_tournament"@,
            "match does not belong to this pool's tournament"@,
        )),
        game.tournament_id@ == pool.tournament_id@ && !teams_defined(*game) ==> (r matches Err(e)
            && is_coded(
            e,
            CodedKind::Validation,
            "match_teams_undefined"@,
            "predictions are not open until both teams are defined"@,
        )),
        game.tournament_id@ == pool.tournament_id@ && teams_defined(*game) ==> {
            &&& (r is Ok <==> command.home_score <= MAX_SCORE && command.away_score <= MAX_SCORE)
            &&& (r matches Ok(s) ==> s.0.value == command.home_score && s.1.value == command.away_score
                && s.2 == pick_verdict(
                game.can_go_to_penalties,
                command.home_score as int,
                command.away_score as int,
                opt_text(command.penalties_pick),
            ))
            &&& (r matches Err(e) ==> is_validation(e, "score must be between 0 and 99"@))
        },
{
    if !str_eq(game.tournament_id.as_str(), pool.tournament_id.as_str()) {
        return Err(
            AppError::conflict_code(
                "match_not_in_pool_tournament",
                "match does not belong to this pool's tournament",
            ),
        );
    }
    if game.home_team_id.is_none() || game.away_team_id.is_none() {
        return Err(
            AppError::validation_code(
                "match_teams_undefined",
                "predictions are not open until both teams are defined",
            ),
        );
    }
    let home = match Score::new(command.home_score) {
        Ok(s) => s,
        Err(e) => return Err(e),
    };
    let away = match Score::new(command.away_score) {
        Ok(s) => s,
        Err(e) => return Err(e),
    };
    let pick = resolve_prediction_pick(game, command.home_score, command.away_score, &command.penalties_pick);
    Ok((home, away, pick))
}

/// The record that saves a prediction: a fresh id, the member, the match,
/// the two scores and the shootout pick.
pub fn prediction_record(
    pool_member_id: String,
    match_id: String,
    home_score: u8,
    away_score: u8,
    penalties_pick: Option<PenaltySide>,
) -> (r: UpsertPredictionRecord)
    ensures
        r.pool_member_id == pool_member_id,
        r.match_id == match_id,
        r.home_score == home_score,
        r.away_score == away_score,
        r.penalties_pick == penalties_pick,
{
    UpsertPredictionRecord {
        prediction_id: new_id(),
        pool_member_id,
        match_id,
        home_score,
        away_score,
        penalties_pick,
    }
}

/// Another pool of the user gets a copy of a prediction when it is active,
/// follows the match's tournament and still has the match's window open.
pub open spec fn copy_target(target: Pool, source_pool_id: Seq<char>, game: Match, now_text: Seq<char>) -> bool {
    &&& target.id@ != source_pool_id
    &&& target.status == PoolStatus::Active
    &&& target.tournament_id@ == game.tournament_id@
    &&& game.status == MatchStatus::Scheduled
    &&& moment_of(parsed_moment(game.kickoff_at@)) matches Some(kickoff)
    &&& moment_of(parsed_moment(now_text)) matches Some(now)
    &&& window_verdict(game.status, kickoff, target.prediction_lock_offset_minutes as int, now) is Ok
}

pub fn is_copy_target(target: &Pool, source_pool_id: &str, game: &Match, now_text: &str) -> (r: bool)
    ensures
        r == copy_target(*target, source_pool_id@, *game, now_text@),
{
    if str_eq(target.id.as_str(), source_pool_id) || target.status != PoolStatus::Active
        || !str_eq(target.tournament_id.as_str(), game.tournament_id.as_str()) {
        return false;
    }
    ensure_open(game.status, game.kickoff_at.as_str(), target.prediction_lock_offset_minutes, now_text).is_ok()
}

/// A pool gets a copy only while its own prediction window is open: it is
/// another active pool of the match's tournament, the match is scheduled,
/// and now is strictly after five days before kickoff and strictly before
/// the kickoff moved back by that pool's own lock offset. Every such pool
/// gets one.
pub proof fn law_copies_go_only_to_open_windows(target: Pool, source_pool_id: Seq<char>, game: Match, now_text: Seq<char>)
    ensures
        copy_target(target, source_pool_id, game, now_text) <==> {
            &&& target.id@ != source_pool_id
            &&& target.status == PoolStatus::Active
            &&& target.tournament_id@ == game.tournament_id@
            &&& game.status == MatchStatus::Scheduled
            &&& match (moment_of(parsed_moment(game.kickoff_at@)), moment_of(parsed_moment(now_text))) {
                (Some(k), Some(n)) => {
                    let opens = k.secs - 432000;
                    let locks = k.secs - target.prediction_lock_offset_minutes * 60;
                    &&& (opens < n.secs || (opens == n.secs && k.nanos < n.nanos))
                    &&& (n.secs < locks || (n.secs == locks && n.nanos < k.nanos))
                },
                _ => false,
            }
        },
{
}

} // verus!
