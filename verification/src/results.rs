//! Entering results, scoring pools, and what members see of each other.

use vstd::prelude::*;

use crate::domain::entities::{Match, PoolMember, Standing};
use crate::domain::kinds::{
    hit_kind_text, match_status_text, penalty_side_from_text, penalty_side_text, HitKind,
    MatchStatus, MemberStatus, PenaltySide,
};
use crate::domain::values::{Score, MAX_SCORE};
use crate::error::{is_coded, is_internal, is_not_found, is_validation, AppError, CodedKind};
use crate::ids::new_id;
use crate::predictions::{window_verdict, OPENING_MINUTES};
use crate::ranking::{
    compute, ids_of, standing_matches, standings_fit, totals_fit, RankedStanding, ScoredLine,
};
use crate::scoring::{
    base_award, penalty_award, penalty_bonus, score, sums_fit, ScoringRules,
};
use crate::sorting::{sort_by_kickoff, stable_kickoff_sort_of};
use crate::text::str_eq;
use crate::time::{before_shifted, earlier, moment_of, parse_datetime, parsed_moment, shifted_secs, Moment};

verus! {

/// A result as the administrator enters it.
#[derive(Debug, Clone)]
pub struct EnterResult {
    pub home_score: u8,
    pub away_score: u8,
    /// Raw "home"/"away" side that won the penalty shootout. Only valid for a
    /// drawn match that can go to penalties.
    pub penalties_winner: Option<String>,
}

/// One line of a member's history.
#[derive(Debug, Clone)]
pub struct HistoryEntry {
    pub match_id: String,
    pub match_status: String,
    pub kickoff_at: String,
    pub prediction_home: u8,
    pub prediction_away: u8,
    pub result_home: Option<u8>,
    pub result_away: Option<u8>,
    pub prediction_penalties_pick: Option<String>,
    pub result_penalties_winner: Option<String>,
    pub points_awarded: Option<i16>,
    pub hit_kind: Option<String>,
}

/// A member's scored history in a pool.
#[derive(Debug, Clone)]
pub struct HistorySummary {
    pub pool_member_id: String,
    pub total_points: i32,
    pub exact_count: i32,
    pub outcome_count: i32,
    pub hits_count: i32,
    pub penalties_count: i32,
    pub penalties_no_draw_count: i32,
    pub errors_count: i32,
    pub pending_count: i32,
    pub entries: Vec<HistoryEntry>,
}

/// Another member's prediction, as it may be shown.
#[derive(Debug, Clone)]
pub struct MemberPredictionView {
    pub match_id: String,
    pub match_status: String,
    pub kickoff_at: String,
    pub prediction_home: u8,
    pub prediction_away: u8,
    pub result_home: Option<u8>,
    pub result_away: Option<u8>,
    pub prediction_penalties_pick: Option<String>,
    pub result_penalties_winner: Option<String>,
    pub points_awarded: Option<i16>,
}

#[derive(Debug, Clone)]
pub struct StandingWithName {
    pub standing: Standing,
    pub display_name: String,
}

#[derive(Debug, Clone)]
pub struct Ranking {
    pub standings: Vec<StandingWithName>,
}

/// One prediction of a pool, with its match.
#[derive(Debug)]
pub struct PredictionLine {
    pub prediction_id: String,
    pub pool_member_id: String,
    pub match_id: String,
    pub prediction_home: u8,
    pub prediction_away: u8,
    pub prediction_penalties_pick: Option<PenaltySide>,
    pub match_status: String,
    pub kickoff_at: String,
    pub result_home: Option<u8>,
    pub result_away: Option<u8>,
    pub result_penalties_winner: Option<PenaltySide>,
}

#[derive(Debug, Clone)]
pub struct ScoredPredictionRecord {
    pub prediction_id: String,
    pub points_awarded: i16,
    pub scored_at: String,
}

#[derive(Debug, Clone)]
pub struct StandingRecord {
    pub standing_id: String,
    pub pool_id: String,
    pub pool_member_id: String,
    pub total_points: i32,
    pub exact_count: i32,
    pub outcome_count: i32,
    pub hits_count: i32,
    pub penalties_count: i32,
    pub penalties_no_draw_count: i32,
    pub position: i32,
}

/// New scores and standings of one pool.
#[derive(Debug, Clone)]
pub struct PoolRecompute {
    pub pool_id: String,
    pub scored_predictions: Vec<ScoredPredictionRecord>,
    pub standings: Vec<StandingRecord>,
}

/// A result and everything it changes.
#[derive(Debug, Clone)]
pub struct ResultApplication {
    pub match_id: String,
    pub home_score: u8,
    pub away_score: u8,
    pub penalties_winner: Option<PenaltySide>,
    pub finished_at: String,
    pub pools: Vec<PoolRecompute>,
}

/// A result that is being entered and not yet stored.
#[derive(Debug, Clone)]
pub struct Overlay {
    pub match_id: String,
    pub home: u8,
    pub away: u8,
    pub penalties_winner: Option<PenaltySide>,
}

/// Entry point of result handling; holds the repositories and services
/// the caller drives.
pub struct ResultUseCases<S, MatchR, ScoringR, PoolR, MemberR, C, N> {
    pub standings: S,
    pub matches: MatchR,
    pub scoring_rules: ScoringR,
    pub pools: PoolR,
    pub members: MemberR,
    pub clock: C,
    pub notifier: N,
}

impl<S, MatchR, ScoringR, PoolR, MemberR, C, N> ResultUseCases<S, MatchR, ScoringR, PoolR, MemberR, C, N> {
    pub fn new(
        standings: S,
        matches: MatchR,
        scoring_rules: ScoringR,
        pools: PoolR,
        members: MemberR,
        clock: C,
        notifier: N,
    ) -> (r: Self)
        ensures
            r.standings == standings,
            r.matches == matches,
            r.scoring_rules == scoring_rules,
            r.pools == pools,
            r.members == members,
            r.clock == clock,
            r.notifier == notifier,
    {
        ResultUseCases { standings, matches, scoring_rules, pools, members, clock, notifier }
    }
}

pub fn side_to_string(side: PenaltySide) -> (r: String)
    ensures
        r@ == penalty_side_text(side),
{
    String::from_str(side.as_str())
}

fn opt_side_to_string(side: Option<PenaltySide>) -> (r: Option<String>)
    ensures
        side is None ==> r is None,
        side matches Some(s) ==> r matches Some(t) && t@ == penalty_side_text(s),
{
    match side {
        Some(s) => Some(side_to_string(s)),
        None => None,
    }
}

/// The shootout winner a result may carry, by the rules of `resolve_penalties_winner`.
pub open spec fn penalties_verdict(
    can_go_to_penalties: bool,
    home: int,
    away: int,
    winner: Option<Seq<char>>,
) -> Result<Option<PenaltySide>, Seq<char>> {
    let is_draw = home == away;
    if winner is Some && !can_go_to_penalties {
        Err("penalties_not_allowed"@)
    } else if winner is Some && !is_draw {
        Err("penalties_winner_requires_draw"@)
    } else {
        match winner {
            Some(w) => match penalty_side_from_text(w) {
                Some(side) => Ok(Some(side)),
                None => Err("invalid penalty side"@),
            },
            None => if can_go_to_penalties && is_draw {
                Err("penalties_winner_required"@)
            } else {
                Ok(None)
            },
        }
    }
}

/// A shootout winner is kept exactly for a drawn match that can go to
/// penalties; conversely such a match is not accepted without one.
pub proof fn law_shootout_winner_only_for_drawn_knockouts(
    can_go_to_penalties: bool,
    home: int,
    away: int,
    winner: Option<Seq<char>>,
)
    ensures
        penalties_verdict(can_go_to_penalties, home, away, winner) matches Ok(v) ==> (v is Some
            <==> (can_go_to_penalties && home == away)),
        (can_go_to_penalties && home == away && winner is None) ==> penalties_verdict(
            can_go_to_penalties,
            home,
            away,
            winner,
        ) is Err,
{
}

/// The error reported for a refused shootout winner, by its code.
pub open spec fn penalties_error(e: AppError, code: Seq<char>) -> bool {
    if code == "penalties_not_allowed"@ {
        is_coded(e, CodedKind::Conflict, code, "this match cannot go to penalties"@)
    } else if code == "penalties_winner_requires_draw"@ {
        is_coded(
            e,
            CodedKind::Conflict,
            code,
            "a penalty-shootout winner is only valid for a drawn match"@,
        )
    } else if code == "penalties_winner_required"@ {
        is_coded(
            e,
            CodedKind::Validation,
            code,
            "inform who won the penalty shootout for this drawn match"@,
        )
    } else {
        is_validation(e, code)
    }
}

/// Validates and parses the penalty-shootout winner supplied with a result.
///
/// A winner is only accepted for a match that can go to penalties and that ended
/// in a draw; conversely, a drawn match that can go to penalties must have one.
pub fn resolve_penalties_winner(
    game: &Match,
    home_score: u8,
    away_score: u8,
    winner: Option<&str>,
) -> (r: Result<Option<PenaltySide>, AppError>)
    ensures
        ({
            let w = match winner {
                Some(s) => Some(s@),
                None => None,
            };
            match penalties_verdict(game.can_go_to_penalties, home_score as int, away_score as int, w) {
                Ok(v) => r == Ok::<Option<PenaltySide>, AppError>(v),
                Err(code) => (r matches Err(e) && penalties_error(e, code)),
            }
        }),
{
    proof {
        reveal_strlit("penalties_not_allowed");
        reveal_strlit("penalties_winner_requires_draw");
        reveal_strlit("penalties_winner_required");
        reveal_strlit("invalid penalty side");
        assert("penalties_winner_requires_draw"@.len() != "penalties_not_allowed"@.len());
        assert("penalties_winner_required"@.len() != "penalties_not_allowed"@.len());
        assert("penalties_winner_required"@.len() != "penalties_winner_requires_draw"@.len());
        assert("invalid penalty side"@.len() != "penalties_not_allowed"@.len());
        assert("invalid penalty side"@.len() != "penalties_winner_requires_draw"@.len());
        assert("invalid penalty side"@.len() != "penalties_winner_required"@.len());
    }
    let is_draw = home_score == away_score;
    if winner.is_some() && !game.can_go_to_penalties {
        return Err(
            AppError::conflict_code("penalties_not_allowed", "this match cannot go to penalties"),
        );
    }
    if winner.is_some() && !is_draw {
        return Err(
            AppError::conflict_code(
                "penalties_winner_requires_draw",
                "a penalty-shootout winner is only valid for a drawn match",
            ),
        );
    }
    match winner {
        Some(value) => match PenaltySide::parse(value) {
            Ok(side) => Ok(Some(side)),
            Err(e) => Err(e),
        },
        None => {
            if game.can_go_to_penalties && is_draw {
                return Err(
                    AppError::validation_code(
                        "penalties_winner_required",
                        "inform who won the penalty shootout for this drawn match",
                    ),
                );
            }
            Ok(None)
        },
    }
}

impl Clone for PredictionLine {
    fn clone(&self) -> (r: Self)
        ensures
            r == *self,
    {
        PredictionLine {
            prediction_id: self.prediction_id.clone(),
            pool_member_id: self.pool_member_id.clone(),
            match_id: self.match_id.clone(),
            prediction_home: self.prediction_home,
            prediction_away: self.prediction_away,
            prediction_penalties_pick: self.prediction_penalties_pick,
            match_status: self.match_status.clone(),
            kickoff_at: self.kickoff_at.clone(),
            result_home: self.result_home,
            result_away: self.result_away,
            result_penalties_winner: self.result_penalties_winner,
        }
    }
}

/// The stored final score of a line's match, if the match is finished.
pub open spec fn stored_result_of(line: PredictionLine) -> Option<(u8, u8)> {
    if line.match_status@ == match_status_text(MatchStatus::Finished) && line.result_home is Some
        && line.result_away is Some {
        Some((line.result_home->0, line.result_away->0))
    } else {
        None
    }
}

pub open spec fn scores_ok(ph: u8, pa: u8, rh: u8, ra: u8) -> bool {
    ph <= MAX_SCORE && pa <= MAX_SCORE && rh <= MAX_SCORE && ra <= MAX_SCORE
}

/// Points, hit kind and shootout hit of a prediction against a result.
pub open spec fn scored(
    line: PredictionLine,
    rh: u8,
    ra: u8,
    winner: Option<PenaltySide>,
    rules: ScoringRules,
) -> (int, HitKind, bool) {
    let base = base_award(
        line.prediction_home as int,
        line.prediction_away as int,
        rh as int,
        ra as int,
        rules,
    );
    let bonus = penalty_award(
        line.prediction_home == line.prediction_away,
        line.prediction_penalties_pick,
        winner,
        rules,
    );
    (base.0 + bonus.0, base.1, bonus.1)
}

pub fn stored_result(line: &PredictionLine) -> (r: Option<(u8, u8)>)
    ensures
        r == stored_result_of(*line),
{
    if !str_eq(line.match_status.as_str(), MatchStatus::Finished.as_str()) {
        return None;
    }
    match (line.result_home, line.result_away) {
        (Some(home), Some(away)) => Some((home, away)),
        _ => None,
    }
}

/// Scores one prediction against the real result with its shootout winner.
fn score_line(line: &PredictionLine, rh: u8, ra: u8, winner: Option<PenaltySide>, rules: &ScoringRules) -> (r: Result<(i16, HitKind, bool), AppError>)
    requires
        sums_fit(*rules),
    ensures
        r is Ok <==> scores_ok(line.prediction_home, line.prediction_away, rh, ra),
        r matches Ok(v) ==> (v.0 as int, v.1, v.2) == scored(*line, rh, ra, winner, *rules),
        r matches Err(e) ==> is_validation(e, "score must be between 0 and 99"@),
{
    let ph = match Score::new(line.prediction_home) {
        Ok(s) => s,
        Err(e) => return Err(e),
    };
    let pa = match Score::new(line.prediction_away) {
        Ok(s) => s,
        Err(e) => return Err(e),
    };
    let h = match Score::new(rh) {
        Ok(s) => s,
        Err(e) => return Err(e),
    };
    let a = match Score::new(ra) {
        Ok(s) => s,
        Err(e) => return Err(e),
    };
    let (base_points, hit) = score((ph, pa), (h, a), rules);
    let (bonus, penalty_hit) = penalty_bonus(
        line.prediction_home == line.prediction_away,
        line.prediction_penalties_pick,
        winner,
        rules,
    );
    Ok((base_points + bonus, hit, penalty_hit))
}

/// The score of a line whose match has a stored final result.
pub fn finished_result(line: &PredictionLine, rules: &ScoringRules) -> (r: Result<
    Option<(i16, HitKind, bool)>,
    AppError,
>)
    requires
        sums_fit(*rules),
    ensures
        match stored_result_of(*line) {
            None => r matches Ok(None),
            Some((rh, ra)) => if scores_ok(line.prediction_home, line.prediction_away, rh, ra) {
                r matches Ok(Some(v)) && (v.0 as int, v.1, v.2) == scored(
                    *line,
                    rh,
                    ra,
                    line.result_penalties_winner,
                    *rules,
                )
            } else {
                r matches Err(e) && is_validation(e, "score must be between 0 and 99"@)
            },
        },
{
    match stored_result(line) {
        Some((rh, ra)) => match score_line(line, rh, ra, line.result_penalties_winner, rules) {
            Ok(v) => Ok(Some(v)),
            Err(e) => Err(e),
        },
        None => Ok(None),
    }
}

/// Whether a line can be scored: no stored result, or all four scores valid.
pub open spec fn line_ok(line: PredictionLine) -> bool {
    match stored_result_of(line) {
        None => true,
        Some((rh, ra)) => scores_ok(line.prediction_home, line.prediction_away, rh, ra),
    }
}

pub open spec fn line_score(line: PredictionLine, rules: ScoringRules) -> Option<(int, HitKind, bool)> {
    match stored_result_of(line) {
        None => None,
        Some((rh, ra)) => Some(scored(line, rh, ra, line.result_penalties_winner, rules)),
    }
}

pub open spec fn history_total(s: Seq<PredictionLine>, rules: ScoringRules) -> int
    decreases s.len(),
{
    if s.len() == 0 {
        0
    } else {
        history_total(s.drop_last(), rules) + match line_score(s.last(), rules) {
            Some(v) => v.0,
            None => 0,
        }
    }
}

pub open spec fn history_hits(s: Seq<PredictionLine>, rules: ScoringRules, kind: HitKind) -> int
    decreases s.len(),
{
    if s.len() == 0 {
        0
    } else {
        history_hits(s.drop_last(), rules, kind) + match line_score(s.last(), rules) {
            Some(v) => if v.1 == kind {
                1int
            } else {
                0
            },
            None => 0,
        }
    }
}

pub open spec fn history_penalty_hits(s: Seq<PredictionLine>, rules: ScoringRules) -> int
    decreases s.len(),
{
    if s.len() == 0 {
        0
    } else {
        history_penalty_hits(s.drop_last(), rules) + match line_score(s.last(), rules) {
            Some(v) => if v.2 {
                1int
            } else {
                0
            },
            None => 0,
        }
    }
}

pub open spec fn history_pending(s: Seq<PredictionLine>) -> int
    decreases s.len(),
{
    if s.len() == 0 {
        0
    } else {
        history_pending(s.drop_last()) + if stored_result_of(s.last()) is None {
            1int
        } else {
            0
        }
    }
}

pub open spec fn opt_side_text(side: Option<PenaltySide>, t: Option<String>) -> bool {
    match side {
        None => t is None,
        Some(s) => t matches Some(x) && x@ == penalty_side_text(s),
    }
}

/// A history entry shows its line, and the line's score once the match is finished.
pub open spec fn entry_matches(e: HistoryEntry, line: PredictionLine, rules: ScoringRules) -> bool {
    &&& e.match_id == line.match_id
    &&& e.match_status == line.match_status
    &&& e.kickoff_at == line.kickoff_at
    &&& e.prediction_home == line.prediction_home
    &&& e.prediction_away == line.prediction_away
    &&& e.result_home == line.result_home
    &&& e.result_away == line.result_away
    &&& opt_side_text(line.prediction_penalties_pick, e.prediction_penalties_pick)
    &&& opt_side_text(line.result_penalties_winner, e.result_penalties_winner)
    &&& match line_score(line, rules) {
        None => e.points_awarded is None && e.hit_kind is None,
        Some(v) => e.points_awarded == Some(v.0 as i16) && (e.hit_kind matches Some(h) && h@
            == hit_kind_text(v.1)),
    }
}

/// What a summary of the lines `s` (already in display order) holds.
pub open spec fn summary_matches(
    r: HistorySummary,
    member_id: Seq<char>,
    s: Seq<PredictionLine>,
    rules: ScoringRules,
) -> bool {
    &&& r.pool_member_id@ == member_id
    &&& r.total_points == history_total(s, rules)
    &&& r.exact_count == history_hits(s, rules, HitKind::Exact)
    &&& r.outcome_count == history_hits(s, rules, HitKind::Outcome)
    &&& r.hits_count == r.exact_count + r.outcome_count
    &&& r.errors_count == history_hits(s, rules, HitKind::Miss)
    &&& r.penalties_count == history_penalty_hits(s, rules)
    &&& r.penalties_no_draw_count == 0
    &&& r.pending_count == history_pending(s)
    &&& r.entries.len() == s.len()
    &&& forall|k: int| 0 <= k < s.len() ==> entry_matches(#[trigger] r.entries@[k], s[k], rules)
}

proof fn lemma_history_step(s: Seq<PredictionLine>, k: int, rules: ScoringRules)
    requires
        0 <= k < s.len(),
    ensures
        s.take(k + 1).drop_last() == s.take(k),
        s.take(k + 1).last() == s[k],
{
    assert(s.take(k + 1).drop_last() =~= s.take(k));
}

/// The summary's totals fit its `i32` fields.
pub open spec fn history_fits(s: Seq<PredictionLine>, rules: ScoringRules) -> bool {
    &&& i32::MIN <= history_total(s, rules) <= i32::MAX
    &&& history_hits(s, rules, HitKind::Exact) + history_hits(s, rules, HitKind::Outcome) <= i32::MAX
    &&& history_hits(s, rules, HitKind::Miss) <= i32::MAX
    &&& history_penalty_hits(s, rules) <= i32::MAX
    &&& history_pending(s) <= i32::MAX
}

/// What a history of the (sorted) lines `s` is: refused when a stored score
/// exceeds 99, else summarized.
pub open spec fn history_result(
    r: Result<HistorySummary, AppError>,
    member_id: Seq<char>,
    s: Seq<PredictionLine>,
    rules: ScoringRules,
) -> bool {
    &&& (r is Ok <==> forall|k: int| 0 <= k < s.len() ==> line_ok(#[trigger] s[k]))
    &&& (r matches Ok(sum) ==> summary_matches(sum, member_id, s, rules))
    &&& (r matches Err(e) ==> is_validation(e, "score must be between 0 and 99"@))
}

/// A history's totals and entries before they are narrowed to a summary.
struct WideHistory {
    total: i128,
    exact: usize,
    outcome: usize,
    errors: usize,
    penalties: usize,
    pending: usize,
    entries: Vec<HistoryEntry>,
}

spec fn wide_matches(w: WideHistory, s: Seq<PredictionLine>, rules: ScoringRules) -> bool {
    &&& w.total == history_total(s, rules)
    &&& w.exact == history_hits(s, rules, HitKind::Exact)
    &&& w.outcome == history_hits(s, rules, HitKind::Outcome)
    &&& w.errors == history_hits(s, rules, HitKind::Miss)
    &&& w.penalties == history_penalty_hits(s, rules)
    &&& w.pending == history_pending(s)
    &&& w.entries.len() == s.len()
    &&& forall|k: int| 0 <= k < s.len() ==> entry_matches(#[trigger] w.entries@[k], s[k], rules)
}

/// Scores the lines in order, keeping totals wide enough for any number of lines.
fn scan_history(s: &Vec<PredictionLine>, rules: &ScoringRules) -> (r: Result<WideHistory, AppError>)
    requires
        sums_fit(*rules),
    ensures
        r is Ok <==> forall|k: int| 0 <= k < s.len() ==> line_ok(#[trigger] s@[k]),
        r matches Ok(w) ==> wide_matches(w, s@, *rules),
        r matches Err(e) ==> is_validation(e, "score must be between 0 and 99"@),
{
    let mut w = WideHistory {
        total: 0,
        exact: 0,
        outcome: 0,
        errors: 0,
        penalties: 0,
        pending: 0,
        entries: Vec::new(),
    };
    let mut k: usize = 0;
    while k < s.len()
        invariant
            k <= s.len(),
            sums_fit(*rules),
            forall|j: int| 0 <= j < k ==> line_ok(#[trigger] s@[j]),
            wide_matches(w, s@.take(k as int), *rules),
            -32768 * k <= w.total <= 32767 * k,
            w.exact <= k,
            w.outcome <= k,
            w.errors <= k,
            w.penalties <= k,
            w.pending <= k,
        decreases s.len() - k,
    {
        let line = &s[k];
        proof {
            lemma_history_step(s@, k as int, *rules);
        }
        let pick = opt_side_to_string(line.prediction_penalties_pick);
        let winner = opt_side_to_string(line.result_penalties_winner);
        let ghost old_entries = w.entries@;
        match finished_result(line, rules) {
            Err(e) => {
                return Err(e);
            },
            Ok(Some((points, hit, penalty_hit))) => {
                w.total = w.total + points as i128;
                match hit {
                    HitKind::Exact => {
                        w.exact = w.exact + 1;
                    },
                    HitKind::Outcome => {
                        w.outcome = w.outcome + 1;
                    },
                    HitKind::Miss => {
                        w.errors = w.errors + 1;
                    },
                }
                if penalty_hit {
                    w.penalties = w.penalties + 1;
                }
                w.entries.push(
                    HistoryEntry {
                        match_id: line.match_id.clone(),
                        match_status: line.match_status.clone(),
                        kickoff_at: line.kickoff_at.clone(),
                        prediction_home: line.prediction_home,
                        prediction_away: line.prediction_away,
                        result_home: line.result_home,
                        result_away: line.result_away,
                        prediction_penalties_pick: pick,
                        result_penalties_winner: winner,
                        points_awarded: Some(points),
                        hit_kind: Some(String::from_str(hit.as_str())),
                    },
                );
            },
            Ok(None) => {
                w.pending = w.pending + 1;
                w.entries.push(
                    HistoryEntry {
                        match_id: line.match_id.clone(),
                        match_status: line.match_status.clone(),
                        kickoff_at: line.kickoff_at.clone(),
                        prediction_home: line.prediction_home,
                        prediction_away: line.prediction_away,
                        result_home: line.result_home,
                        result_away: line.result_away,
                        prediction_penalties_pick: pick,
                        result_penalties_winner: winner,
                        points_awarded: None,
                        hit_kind: None,
                    },
                );
            },
        }
        proof {
            assert forall|j: int| 0 <= j < k + 1 implies entry_matches(
                #[trigger] w.entries@[j],
                s@.take(k + 1)[j],
                *rules,
            ) by {
                if j < k {
                    assert(w.entries@[j] == old_entries[j]);
                    assert(s@.take(k + 1)[j] == s@.take(k as int)[j]);
                }
            }
        }
        k = k + 1;
    }
    assert(s@.take(s.len() as int) =~= s@);
    Ok(w)
}

fn wide_fits(w: &WideHistory) -> (r: bool)
    ensures
        r == (i32::MIN <= w.total <= i32::MAX && w.exact + w.outcome <= i32::MAX && w.errors
            <= i32::MAX && w.penalties <= i32::MAX && w.pending <= i32::MAX),
{
    -2147483648i128 <= w.total && w.total <= 2147483647i128 && w.exact <= 2147483647usize
        && w.outcome <= 2147483647usize - w.exact && w.errors <= 2147483647usize && w.penalties
        <= 2147483647usize && w.pending <= 2147483647usize
}

fn narrow_history(member_id: String, w: WideHistory) -> (sum: HistorySummary)
    requires
        i32::MIN <= w.total <= i32::MAX,
        w.exact + w.outcome <= i32::MAX,
        w.errors <= i32::MAX,
        w.penalties <= i32::MAX,
        w.pending <= i32::MAX,
    ensures
        sum.pool_member_id == member_id,
        sum.total_points == w.total,
        sum.exact_count == w.exact,
        sum.outcome_count == w.outcome,
        sum.hits_count == w.exact + w.outcome,
        sum.errors_count == w.errors,
        sum.penalties_count == w.penalties,
        sum.penalties_no_draw_count == 0,
        sum.pending_count == w.pending,
        sum.entries == w.entries,
{
    HistorySummary {
        pool_member_id: member_id,
        total_points: w.total as i32,
        exact_count: w.exact as i32,
        outcome_count: w.outcome as i32,
        hits_count: (w.exact + w.outcome) as i32,
        penalties_count: w.penalties as i32,
        penalties_no_draw_count: 0,
        errors_count: w.errors as i32,
        pending_count: w.pending as i32,
        entries: w.entries,
    }
}

/// A member's history over lines already in kickoff order: every line as an
/// entry, with the totals of the finished ones.
pub fn summarize_sorted(member_id: String, s: &Vec<PredictionLine>, rules: &ScoringRules) -> (r: Result<HistorySummary, AppError>)
    requires
        sums_fit(*rules),
        history_fits(s@, *rules),
    ensures
        history_result(r, member_id@, s@, *rules),
{
    let ghost id = member_id@;
    match scan_history(s, rules) {
        Err(e) => Err(e),
        Ok(w) => {
            let sum = narrow_history(member_id, w);
            assert(sum.entries@ =~= w.entries@);
            Ok(sum)
        },
    }
}

/// The lines of one member, in their original order.
pub open spec fn lines_of_member(lines: Seq<PredictionLine>, id: Seq<char>) -> Seq<PredictionLine>
    decreases lines.len(),
{
    if lines.len() == 0 {
        Seq::empty()
    } else {
        let rest = lines_of_member(lines.drop_last(), id);
        if lines.last().pool_member_id@ == id {
            rest.push(lines.last())
        } else {
            rest
        }
    }
}

/// Keeps the lines of one member.
pub fn filter_member(lines: &Vec<PredictionLine>, member_id: &str) -> (r: Vec<PredictionLine>)
    ensures
        r@ == lines_of_member(lines@, member_id@),
{
    let mut r: Vec<PredictionLine> = Vec::new();
    let mut i: usize = 0;
    while i < lines.len()
        invariant
            i <= lines.len(),
            r@ == lines_of_member(lines@.take(i as int), member_id@),
        decreases lines.len() - i,
    {
        assert(lines@.take(i + 1).drop_last() =~= lines@.take(i as int));
        if str_eq(lines[i].pool_member_id.as_str(), member_id) {
            r.push(lines[i].clone());
        }
        i = i + 1;
    }
    assert(lines@.take(lines.len() as int) =~= lines@);
    r
}

/// A member's history: their lines, ordered by kickoff (stable), each with
/// its score once the match is finished, and the totals of those scores.
pub fn history_summary(member_id: String, lines: &Vec<PredictionLine>, rules: &ScoringRules) -> (r: Result<HistorySummary, AppError>)
    requires
        sums_fit(*rules),
        forall|s: Seq<PredictionLine>|
            stable_kickoff_sort_of(s, lines_of_member(lines@, member_id@)) ==> history_fits(
                s,
                *rules,
            ),
    ensures
        exists|s: Seq<PredictionLine>|
            {
                &&& stable_kickoff_sort_of(s, lines_of_member(lines@, member_id@))
                &&& history_result(r, member_id@, s, *rules)
            },
{
    let mine = filter_member(lines, member_id.as_str());
    let ghost id = member_id@;
    let sorted = sort_by_kickoff(mine);
    assert(stable_kickoff_sort_of(sorted@, lines_of_member(lines@, id)));
    summarize_sorted(member_id, &sorted, rules)
}

/// What a checked history of the sorted lines `s` is: `None` exactly where
/// every line can be scored but the totals do not fit the summary.
pub open spec fn checked_history(
    r: Option<Result<HistorySummary, AppError>>,
    member_id: Seq<char>,
    s: Seq<PredictionLine>,
    rules: ScoringRules,
) -> bool {
    &&& (r is None <==> (forall|k: int| 0 <= k < s.len() ==> line_ok(#[trigger] s[k]))
        && !history_fits(s, rules))
    &&& (r matches Some(x) ==> history_result(x, member_id, s, rules))
}

/// A member's history as `history_summary` gives it, after testing that the
/// totals fit the summary: `None` where they do not.
pub fn history_summary_checked(member_id: String, lines: &Vec<PredictionLine>, rules: &ScoringRules) -> (r: Option<
    Result<HistorySummary, AppError>,
>)
    requires
        sums_fit(*rules),
    ensures
        exists|s: Seq<PredictionLine>|
            {
                &&& stable_kickoff_sort_of(s, lines_of_member(lines@, member_id@))
                &&& checked_history(r, member_id@, s, *rules)
            },
{
    let mine = filter_member(lines, member_id.as_str());
    let ghost id = member_id@;
    let sorted = sort_by_kickoff(mine);
    assert(stable_kickoff_sort_of(sorted@, lines_of_member(lines@, id)));
    let r = match scan_history(&sorted, rules) {
        Err(e) => Some(Err(e)),
        Ok(w) => {
            if !wide_fits(&w) {
                None
            } else {
                let sum = narrow_history(member_id, w);
                assert(sum.entries@ =~= w.entries@);
                Some(Ok(sum))
            }
        },
    };
    assert(checked_history(r, id, sorted@, *rules));
    r
}

/// Whether another member's prediction may be shown: always once the match
/// has left the scheduled state, otherwise from the pool's lock time on.
pub open spec fn revealed(status: Seq<char>, kickoff_at: Seq<char>, lock_offset_minutes: int, now: Moment) -> bool {
    if status != match_status_text(MatchStatus::Scheduled) {
        true
    } else {
        match moment_of(parsed_moment(kickoff_at)) {
            Some(kickoff) => !earlier(
                now.secs as int,
                now.nanos as int,
                shifted_secs(kickoff, -lock_offset_minutes),
                kickoff.nanos as int,
            ),
            None => false,
        }
    }
}

pub fn is_revealed(status: &str, kickoff_at: &str, lock_offset_minutes: u16, now: Moment) -> (r: bool)
    ensures
        r == revealed(status@, kickoff_at@, lock_offset_minutes as int, now),
{
    if !str_eq(status, MatchStatus::Scheduled.as_str()) {
        return true;
    }
    match parse_datetime(kickoff_at) {
        Some(kickoff) => !before_shifted(now, kickoff, -(lock_offset_minutes as i64)),
        None => false,
    }
}

/// The lines of one member that may be shown now, in their original order.
pub open spec fn visible_lines(
    lines: Seq<PredictionLine>,
    id: Seq<char>,
    lock_offset_minutes: int,
    now: Moment,
) -> Seq<PredictionLine>
    decreases lines.len(),
{
    if lines.len() == 0 {
        Seq::empty()
    } else {
        let rest = visible_lines(lines.drop_last(), id, lock_offset_minutes, now);
        let l = lines.last();
        if l.pool_member_id@ == id && revealed(
            l.match_status@,
            l.kickoff_at@,
            lock_offset_minutes,
            now,
        ) {
            rest.push(l)
        } else {
            rest
        }
    }
}

pub open spec fn view_matches(v: MemberPredictionView, line: PredictionLine) -> bool {
    &&& v.match_id == line.match_id
    &&& v.match_status == line.match_status
    &&& v.kickoff_at == line.kickoff_at
    &&& v.prediction_home == line.prediction_home
    &&& v.prediction_away == line.prediction_away
    &&& v.result_home == line.result_home
    &&& v.result_away == line.result_away
    &&& opt_side_text(line.prediction_penalties_pick, v.prediction_penalties_pick)
    &&& opt_side_text(line.result_penalties_winner, v.result_penalties_winner)
    &&& v.points_awarded is None
}

/// Another member's predictions that may be shown now, ordered by kickoff.
pub fn member_prediction_views(
    target_member_id: &str,
    lines: &Vec<PredictionLine>,
    lock_offset_minutes: u16,
    now: Moment,
) -> (r: Vec<MemberPredictionView>)
    ensures
        exists|s: Seq<PredictionLine>|
            {
                &&& stable_kickoff_sort_of(
                    s,
                    visible_lines(lines@, target_member_id@, lock_offset_minutes as int, now),
                )
                &&& r.len() == s.len()
                &&& forall|k: int| 0 <= k < s.len() ==> view_matches(#[trigger] r@[k], s[k])
            },
{
    let mut shown: Vec<PredictionLine> = Vec::new();
    let mut i: usize = 0;
    while i < lines.len()
        invariant
            i <= lines.len(),
            shown@ == visible_lines(
                lines@.take(i as int),
                target_member_id@,
                lock_offset_minutes as int,
                now,
            ),
        decreases lines.len() - i,
    {
        assert(lines@.take(i + 1).drop_last() =~= lines@.take(i as int));
        let line = &lines[i];
        if str_eq(line.pool_member_id.as_str(), target_member_id) && is_revealed(
            line.match_status.as_str(),
            line.kickoff_at.as_str(),
            lock_offset_minutes,
            now,
        ) {
            shown.push(line.clone());
        }
        i = i + 1;
    }
    assert(lines@.take(lines.len() as int) =~= lines@);
    let sorted = sort_by_kickoff(shown);
    let mut r: Vec<MemberPredictionView> = Vec::new();
    let mut k: usize = 0;
    while k < sorted.len()
        invariant
            k <= sorted.len(),
            r.len() == k,
            forall|j: int| 0 <= j < k ==> view_matches(#[trigger] r@[j], sorted@[j]),
        decreases sorted.len() - k,
    {
        let line = &sorted[k];
        r.push(
            MemberPredictionView {
                match_id: line.match_id.clone(),
                match_status: line.match_status.clone(),
                kickoff_at: line.kickoff_at.clone(),
                prediction_home: line.prediction_home,
                prediction_away: line.prediction_away,
                result_home: line.result_home,
                result_away: line.result_away,
                prediction_penalties_pick: opt_side_to_string(line.prediction_penalties_pick),
                result_penalties_winner: opt_side_to_string(line.result_penalties_winner),
                points_awarded: None,
            },
        );
        k = k + 1;
    }
    r
}

/// The result a line is scored against: the one being entered for its match,
/// else its stored final result.
pub open spec fn effective_result(line: PredictionLine, overlay: Option<Overlay>) -> (
    Option<(u8, u8)>,
    Option<PenaltySide>,
) {
    match overlay {
        Some(o) => if o.match_id@ == line.match_id@ {
            (Some((o.home, o.away)), o.penalties_winner)
        } else {
            (stored_result_of(line), line.result_penalties_winner)
        },
        None => (stored_result_of(line), line.result_penalties_winner),
    }
}

/// The lines that have a result to be scored against, in order.
pub open spec fn lines_with_result(lines: Seq<PredictionLine>, overlay: Option<Overlay>) -> Seq<
    PredictionLine,
>
    decreases lines.len(),
{
    if lines.len() == 0 {
        Seq::empty()
    } else {
        let rest = lines_with_result(lines.drop_last(), overlay);
        if effective_result(lines.last(), overlay).0 is Some {
            rest.push(lines.last())
        } else {
            rest
        }
    }
}

pub open spec fn line_scorable(line: PredictionLine, overlay: Option<Overlay>) -> bool {
    let (res, _) = effective_result(line, overlay);
    scores_ok(line.prediction_home, line.prediction_away, (res->0).0, (res->0).1)
}

pub open spec fn scored_line_of(line: PredictionLine, overlay: Option<Overlay>, rules: ScoringRules) -> ScoredLine {
    let (res, winner) = effective_result(line, overlay);
    let v = scored(line, (res->0).0, (res->0).1, winner, rules);
    ScoredLine { pool_member_id: line.pool_member_id, points: v.0 as i16, hit: v.1, penalty_hit: v.2 }
}

pub open spec fn scored_lines_of(lines: Seq<PredictionLine>, overlay: Option<Overlay>, rules: ScoringRules) -> Seq<ScoredLine> {
    lines_with_result(lines, overlay).map_values(|l: PredictionLine| scored_line_of(l, overlay, rules))
}

/// A stored standing carries a ranked standing of `compute` for the member at `i`.
pub open spec fn standing_record_matches(
    rec: StandingRecord,
    pool_id: Seq<char>,
    ids: Seq<Seq<char>>,
    scored: Seq<ScoredLine>,
    i: int,
) -> bool {
    exists|st: RankedStanding|
        {
            &&& standing_matches(st, ids, scored, i)
            &&& rec.pool_id@ == pool_id
            &&& rec.pool_member_id == st.pool_member_id
            &&& rec.total_points == st.total_points
            &&& rec.exact_count == st.exact_count
            &&& rec.outcome_count == st.outcome_count
            &&& rec.hits_count == st.hits_count
            &&& rec.penalties_count == st.penalties_count
            &&& rec.penalties_no_draw_count == 0
            &&& rec.position == st.position
        }
}

proof fn lemma_with_result_len(lines: Seq<PredictionLine>, overlay: Option<Overlay>)
    ensures
        lines_with_result(lines, overlay).len() <= lines.len(),
    decreases lines.len(),
{
    if lines.len() > 0 {
        lemma_with_result_len(lines.drop_last(), overlay);
    }
}

proof fn lemma_with_result_prefix(s: Seq<PredictionLine>, j: int, overlay: Option<Overlay>)
    requires
        0 <= j <= s.len(),
    ensures
        lines_with_result(s.take(j), overlay).len() <= lines_with_result(s, overlay).len(),
        forall|k: int|
            0 <= k < lines_with_result(s.take(j), overlay).len() ==> #[trigger] lines_with_result(
                s,
                overlay,
            )[k] == lines_with_result(s.take(j), overlay)[k],
    decreases s.len(),
{
    if j == s.len() {
        assert(s.take(j) =~= s);
    } else {
        let d = s.drop_last();
        assert(d.take(j) =~= s.take(j));
        lemma_with_result_prefix(d, j, overlay);
    }
}

proof fn lemma_with_result_has_result(lines: Seq<PredictionLine>, overlay: Option<Overlay>, k: int)
    requires
        0 <= k < lines_with_result(lines, overlay).len(),
    ensures
        effective_result(lines_with_result(lines, overlay)[k], overlay).0 is Some,
    decreases lines.len(),
{
    if lines.len() > 0 {
        let rest = lines_with_result(lines.drop_last(), overlay);
        if k < rest.len() {
            lemma_with_result_has_result(lines.drop_last(), overlay, k);
        }
    }
}

/// The points stored for a prediction when its pool is recomputed are the
/// points, hit and shootout hit that its member's history shows for it.
pub proof fn law_recompute_agrees_with_history(lines: Seq<PredictionLine>, rules: ScoringRules, k: int)
    requires
        0 <= k < lines_with_result(lines, None).len(),
    ensures
        line_score(lines_with_result(lines, None)[k], rules) matches Some(v) && {
            let st = scored_lines_of(lines, None, rules)[k];
            &&& st.points == v.0 as i16
            &&& st.hit == v.1
            &&& st.penalty_hit == v.2
        },
{
    lemma_with_result_has_result(lines, None, k);
}

/// `stored` is `line` as it reads once the result `o` is stored for its match:
/// the same prediction, the match finished with `o`'s scores and winner.
pub open spec fn stored_with(stored: PredictionLine, line: PredictionLine, o: Overlay) -> bool {
    &&& stored.prediction_id == line.prediction_id
    &&& stored.pool_member_id == line.pool_member_id
    &&& stored.prediction_home == line.prediction_home
    &&& stored.prediction_away == line.prediction_away
    &&& stored.prediction_penalties_pick == line.prediction_penalties_pick
    &&& stored.match_status@ == match_status_text(MatchStatus::Finished)
    &&& stored.result_home == Some(o.home)
    &&& stored.result_away == Some(o.away)
    &&& stored.result_penalties_winner == o.penalties_winner
}

/// The lines `after` are the lines `before` once `o` is stored: lines of
/// other matches unchanged, lines of `o`'s match `stored_with` it.
pub open spec fn stored_lines(after: Seq<PredictionLine>, before: Seq<PredictionLine>, o: Overlay) -> bool {
    &&& after.len() == before.len()
    &&& forall|k: int|
        0 <= k < before.len() ==> if (#[trigger] before[k]).match_id@ == o.match_id@ {
            stored_with(after[k], before[k], o)
        } else {
            after[k] == before[k]
        }
}

proof fn lemma_entered_line(a: PredictionLine, b: PredictionLine, o: Overlay, rules: ScoringRules)
    requires
        if a.match_id@ == o.match_id@ {
            stored_with(b, a, o)
        } else {
            b == a
        },
    ensures
        effective_result(a, Some(o)) == effective_result(b, None),
        scored_line_of(a, Some(o), rules) == scored_line_of(b, None, rules),
        line_scorable(a, Some(o)) == line_scorable(b, None),
        a.prediction_id == b.prediction_id,
{
}

proof fn lemma_entered_lines(after: Seq<PredictionLine>, before: Seq<PredictionLine>, o: Overlay, rules: ScoringRules)
    requires
        stored_lines(after, before, o),
    ensures
        lines_with_result(before, Some(o)).len() == lines_with_result(after, None).len(),
        forall|k: int|
            0 <= k < lines_with_result(before, Some(o)).len() ==> {
                let a = #[trigger] lines_with_result(before, Some(o))[k];
                let b = lines_with_result(after, None)[k];
                &&& a.prediction_id == b.prediction_id
                &&& scored_line_of(a, Some(o), rules) == scored_line_of(b, None, rules)
                &&& line_scorable(a, Some(o)) == line_scorable(b, None)
            },
    decreases before.len(),
{
    if before.len() > 0 {
        let n = before.len() - 1;
        assert(stored_lines(after.drop_last(), before.drop_last(), o)) by {
            assert forall|k: int| 0 <= k < before.drop_last().len() implies if (
            #[trigger] before.drop_last()[k]).match_id@ == o.match_id@ {
                stored_with(after.drop_last()[k], before.drop_last()[k], o)
            } else {
                after.drop_last()[k] == before.drop_last()[k]
            } by {
                assert(before.drop_last()[k] == before[k]);
                assert(after.drop_last()[k] == after[k]);
            }
        }
        lemma_entered_lines(after.drop_last(), before.drop_last(), o, rules);
        assert(before.last() == before[n]);
        assert(after.last() == after[n]);
        lemma_entered_line(before.last(), after.last(), o, rules);
    }
}

/// Entering a result recomputes the pool exactly as if that result were
/// already stored: each prediction of the entered match is scored as one of
/// a finished match with the entered scores and shootout winner, and every
/// other prediction as it is stored.
pub proof fn law_entered_result_acts_as_stored(
    r: Result<PoolRecompute, AppError>,
    pool_id: Seq<char>,
    rules: ScoringRules,
    before: Seq<PredictionLine>,
    after: Seq<PredictionLine>,
    member_ids: Seq<String>,
    o: Overlay,
    scored_at: Seq<char>,
)
    requires
        stored_lines(after, before, o),
    ensures
        recomputed(r, pool_id, rules, before, member_ids, Some(o), scored_at) <==> recomputed(
            r,
            pool_id,
            rules,
            after,
            member_ids,
            None,
            scored_at,
        ),
{
    lemma_entered_lines(after, before, o, rules);
    let wb = lines_with_result(before, Some(o));
    let wa = lines_with_result(after, None);
    assert(scored_lines_of(before, Some(o), rules) =~= scored_lines_of(after, None, rules));
    assert(all_scorable(before, Some(o)) == all_scorable(after, None)) by {
        if all_scorable(before, Some(o)) {
            assert forall|k: int| 0 <= k < wa.len() implies line_scorable(#[trigger] wa[k], None) by {
                assert(line_scorable(wb[k], Some(o)));
            }
        }
        if all_scorable(after, None) {
            assert forall|k: int| 0 <= k < wb.len() implies line_scorable(#[trigger] wb[k], Some(o)) by {
                assert(line_scorable(wa[k], None));
            }
        }
    }
}

/// A line of another match is scored the same whether or not a result is
/// being entered.
pub proof fn law_entered_result_leaves_other_matches(line: PredictionLine, o: Overlay, rules: ScoringRules)
    requires
        line.match_id@ != o.match_id@,
    ensures
        effective_result(line, Some(o)) == effective_result(line, None),
        scored_line_of(line, Some(o), rules) == scored_line_of(line, None, rules),
{
}

/// Another member's prediction for a scheduled match is shown exactly when
/// it can no longer be changed. This holds for lock offsets shorter than the
/// five days during which predictions are open.
pub proof fn law_revealed_exactly_when_locked(
    kickoff_at: Seq<char>,
    kickoff: Moment,
    lock_offset_minutes: int,
    now: Moment,
)
    requires
        moment_of(parsed_moment(kickoff_at)) == Some(kickoff),
        0 <= lock_offset_minutes < OPENING_MINUTES,
    ensures
        revealed(match_status_text(MatchStatus::Scheduled), kickoff_at, lock_offset_minutes, now)
            <==> window_verdict(MatchStatus::Scheduled, kickoff, lock_offset_minutes, now) == Err::<
            (),
            Seq<char>,
        >("prediction_locked"@),
{
    reveal_strlit("prediction_locked");
    reveal_strlit("prediction_not_open_yet");
    assert("prediction_locked"@ != "prediction_not_open_yet"@) by {
        assert("prediction_locked"@.len() != "prediction_not_open_yet"@.len());
    }
}

fn clone_overlay_result(overlay: &Option<Overlay>, line: &PredictionLine) -> (r: (
    Option<(u8, u8)>,
    Option<PenaltySide>,
))
    ensures
        r == effective_result(*line, *overlay),
{
    match overlay {
        Some(o) => {
            if str_eq(o.match_id.as_str(), line.match_id.as_str()) {
                return (Some((o.home, o.away)), o.penalties_winner);
            }
        },
        None => {},
    }
    (stored_result(line), line.result_penalties_winner)
}

/// Every prediction that has a result (taking `overlay` as the result of its
/// match) has scores of at most 99.
pub open spec fn all_scorable(lines: Seq<PredictionLine>, overlay: Option<Overlay>) -> bool {
    forall|k: int|
        0 <= k < lines_with_result(lines, overlay).len() ==> line_scorable(
            #[trigger] lines_with_result(lines, overlay)[k],
            overlay,
        )
}

/// What recomputing a pool gives: each prediction that has a result scored
/// (taking `overlay` as the result of its match) and the members ranked.
pub open spec fn recomputed(
    r: Result<PoolRecompute, AppError>,
    pool_id: Seq<char>,
    rules: ScoringRules,
    lines: Seq<PredictionLine>,
    member_ids: Seq<String>,
    overlay: Option<Overlay>,
    scored_at: Seq<char>,
) -> bool {
    &&& (r is Ok <==> all_scorable(lines, overlay))
    &&& (r matches Err(e) ==> is_validation(e, "score must be between 0 and 99"@))
    &&& (r matches Ok(pr) ==> {
        let with = lines_with_result(lines, overlay);
        let scored = scored_lines_of(lines, overlay, rules);
        &&& pr.pool_id@ == pool_id
        &&& pr.scored_predictions.len() == with.len()
        &&& forall|k: int|
            0 <= k < with.len() ==> {
                &&& (#[trigger] pr.scored_predictions@[k]).prediction_id == with[k].prediction_id
                &&& pr.scored_predictions@[k].points_awarded == scored[k].points
                &&& pr.scored_predictions@[k].scored_at@ == scored_at
            }
        &&& pr.standings.len() == member_ids.len()
        &&& forall|i: int|
            0 <= i < member_ids.len() ==> standing_record_matches(
                #[trigger] pr.standings@[i],
                pool_id,
                ids_of(member_ids),
                scored,
                i,
            )
    })
}

/// Scores every prediction that has a result, taking `overlay` as the result
/// of its match.
fn score_pool_lines(
    rules: &ScoringRules,
    lines: &Vec<PredictionLine>,
    overlay: &Option<Overlay>,
    scored_at: &str,
) -> (r: Result<(Vec<ScoredPredictionRecord>, Vec<ScoredLine>), AppError>)
    requires
        sums_fit(*rules),
    ensures
        r is Ok <==> all_scorable(lines@, *overlay),
        r matches Err(e) ==> is_validation(e, "score must be between 0 and 99"@),
        r matches Ok((records, scored_lines)) ==> {
            let with = lines_with_result(lines@, *overlay);
            &&& scored_lines@ == scored_lines_of(lines@, *overlay, *rules)
            &&& records.len() == with.len()
            &&& forall|k: int|
                0 <= k < with.len() ==> {
                    &&& (#[trigger] records@[k]).prediction_id == with[k].prediction_id
                    &&& records@[k].points_awarded == scored_lines@[k].points
                    &&& records@[k].scored_at@ == scored_at@
                }
        },
{
    let ghost ov = *overlay;
    let mut records: Vec<ScoredPredictionRecord> = Vec::new();
    let mut scored_lines: Vec<ScoredLine> = Vec::new();
    let mut i: usize = 0;
    while i < lines.len()
        invariant
            i <= lines.len(),
            sums_fit(*rules),
            ov == *overlay,
            forall|k: int|
                0 <= k < lines_with_result(lines@.take(i as int), ov).len() ==> line_scorable(
                    #[trigger] lines_with_result(lines@.take(i as int), ov)[k],
                    ov,
                ),
            records.len() == lines_with_result(lines@.take(i as int), ov).len(),
            scored_lines@ == scored_lines_of(lines@.take(i as int), ov, *rules),
            forall|k: int|
                0 <= k < records.len() ==> {
                    &&& (#[trigger] records@[k]).prediction_id == lines_with_result(
                        lines@.take(i as int),
                        ov,
                    )[k].prediction_id
                    &&& records@[k].points_awarded == scored_lines@[k].points
                    &&& records@[k].scored_at@ == scored_at@
                },
        decreases lines.len() - i,
    {
        let line = &lines[i];
        let ghost before = lines@.take(i as int);
        let ghost after = lines@.take(i + 1);
        assert(after.drop_last() =~= before);
        assert(after.last() == *line);
        let (res, winner) = clone_overlay_result(overlay, line);
        match res {
            None => {},
            Some((rh, ra)) => {
                match score_line(line, rh, ra, winner, rules) {
                    Err(e) => {
                        proof {
                            let w = lines_with_result(after, ov);
                            assert(w.last() == *line);
                            assert(!line_scorable(w[w.len() - 1], ov));
                            lemma_with_result_prefix(lines@, i + 1, ov);
                            assert(lines_with_result(lines@, ov)[w.len() - 1] == w[w.len() - 1]);
                        }
                        return Err(e);
                    },
                    Ok((points, hit, penalty_hit)) => {
                        records.push(
                            ScoredPredictionRecord {
                                prediction_id: line.prediction_id.clone(),
                                points_awarded: points,
                                scored_at: String::from_str(scored_at),
                            },
                        );
                        scored_lines.push(
                            ScoredLine {
                                pool_member_id: line.pool_member_id.clone(),
                                points,
                                hit,
                                penalty_hit,
                            },
                        );
                        proof {
                            let w0 = lines_with_result(before, ov);
                            let w1 = lines_with_result(after, ov);
                            assert(w1 == w0.push(*line));
                            assert(scored_lines_of(after, ov, *rules) =~= scored_lines_of(
                                before,
                                ov,
                                *rules,
                            ).push(scored_line_of(*line, ov, *rules)));
                            assert forall|k: int| 0 <= k < w1.len() implies line_scorable(
                                #[trigger] w1[k],
                                ov,
                            ) by {
                                if k < w0.len() {
                                    assert(w1[k] == w0[k]);
                                }
                            }
                        }
                    },
                }
            },
        }
        proof {
            if res is None {
                assert(lines_with_result(after, ov) == lines_with_result(before, ov));
                assert(scored_lines_of(after, ov, *rules) =~= scored_lines_of(before, ov, *rules));
            }
        }
        i = i + 1;
    }
    assert(lines@.take(lines.len() as int) =~= lines@);
    proof {
        lemma_with_result_len(lines@, ov);
    }
    Ok((records, scored_lines))
}

/// The standings of a pool's members from its scored predictions.
fn pool_standings(pool_id: &str, member_ids: &Vec<String>, scored_lines: &Vec<ScoredLine>) -> (standings: Vec<
    StandingRecord,
>)
    requires
        totals_fit(ids_of(member_ids@), scored_lines@),
        member_ids.len() < i32::MAX,
    ensures
        standings.len() == member_ids.len(),
        forall|i: int|
            0 <= i < member_ids.len() ==> standing_record_matches(
                #[trigger] standings@[i],
                pool_id@,
                ids_of(member_ids@),
                scored_lines@,
                i,
            ),
{
    let ranked = compute(member_ids, &scored_lines);
    let mut standings: Vec<StandingRecord> = Vec::new();
    let mut j: usize = 0;
    while j < ranked.len()
        invariant
            j <= ranked.len(),
            ranked.len() == member_ids.len(),
            forall|i: int|
                0 <= i < ranked.len() ==> standing_matches(
                    #[trigger] ranked@[i],
                    ids_of(member_ids@),
                    scored_lines@,
                    i,
                ),
            standings.len() == j,
            forall|i: int|
                0 <= i < j ==> standing_record_matches(
                    #[trigger] standings@[i],
                    pool_id@,
                    ids_of(member_ids@),
                    scored_lines@,
                    i,
                ),
        decreases ranked.len() - j,
    {
        let st = &ranked[j];
        standings.push(
            StandingRecord {
                standing_id: new_id(),
                pool_id: String::from_str(pool_id),
                pool_member_id: st.pool_member_id.clone(),
                total_points: st.total_points,
                exact_count: st.exact_count,
                outcome_count: st.outcome_count,
                hits_count: st.hits_count,
                penalties_count: st.penalties_count,
                penalties_no_draw_count: 0,
                position: st.position,
            },
        );
        assert(standing_matches(ranked@[j as int], ids_of(member_ids@), scored_lines@, j as int));
        j = j + 1;
    }
    standings
}

/// Scores every prediction of a pool that has a result (taking `overlay` as
/// the result of its match) and ranks the pool's active members. Every
/// member's totals must fit a standing; `compute_pool_checked` tests that.
pub fn compute_pool(
    pool_id: &str,
    rules: &ScoringRules,
    lines: &Vec<PredictionLine>,
    member_ids: &Vec<String>,
    overlay: &Option<Overlay>,
    scored_at: &str,
) -> (r: Result<PoolRecompute, AppError>)
    requires
        sums_fit(*rules),
        totals_fit(ids_of(member_ids@), scored_lines_of(lines@, *overlay, *rules)),
        member_ids.len() < i32::MAX,
    ensures
        recomputed(r, pool_id@, *rules, lines@, member_ids@, *overlay, scored_at@),
{
    match score_pool_lines(rules, lines, overlay, scored_at) {
        Err(e) => Err(e),
        Ok((records, scored_lines)) => {
            let standings = pool_standings(pool_id, member_ids, &scored_lines);
            Ok(PoolRecompute { pool_id: String::from_str(pool_id), scored_predictions: records, standings })
        },
    }
}

/// Recomputes a pool as `compute_pool` does, after testing that every
/// member's totals fit a standing: `None` where they do not.
pub fn compute_pool_checked(
    pool_id: &str,
    rules: &ScoringRules,
    lines: &Vec<PredictionLine>,
    member_ids: &Vec<String>,
    overlay: &Option<Overlay>,
    scored_at: &str,
) -> (r: Option<Result<PoolRecompute, AppError>>)
    requires
        sums_fit(*rules),
        member_ids.len() < i32::MAX,
    ensures
        r is None <==> all_scorable(lines@, *overlay) && !totals_fit(
            ids_of(member_ids@),
            scored_lines_of(lines@, *overlay, *rules),
        ),
        r matches Some(x) ==> recomputed(x, pool_id@, *rules, lines@, member_ids@, *overlay, scored_at@),
{
    match score_pool_lines(rules, lines, overlay, scored_at) {
        Err(e) => Some(Err(e)),
        Ok((records, scored_lines)) => {
            if !standings_fit(member_ids, &scored_lines) {
                return None;
            }
            let standings = pool_standings(pool_id, member_ids, &scored_lines);
            Some(Ok(PoolRecompute { pool_id: String::from_str(pool_id), scored_predictions: records, standings }))
        },
    }
}

/// The ids of the active members, in order.
pub open spec fn active_ids(members: Seq<PoolMember>) -> Seq<Seq<char>>
    decreases members.len(),
{
    if members.len() == 0 {
        Seq::empty()
    } else {
        let rest = active_ids(members.drop_last());
        if members.last().status == MemberStatus::Active {
            rest.push(members.last().id@)
        } else {
            rest
        }
    }
}

/// A pool is ranked over its active members and nobody else: every id ranked
/// is the id of an active member, every active member's id is ranked, and
/// adding a member adds its id at the end exactly when it is active.
pub proof fn law_ranked_members_are_the_active_ones(members: Seq<PoolMember>, m: PoolMember)
    ensures
        forall|x: Seq<char>|
            active_ids(members).contains(x) ==> exists|k: int|
                0 <= k < members.len() && (#[trigger] members[k]).id@ == x && members[k].status
                    == MemberStatus::Active,
        forall|k: int|
            0 <= k < members.len() && (#[trigger] members[k]).status == MemberStatus::Active
                ==> active_ids(members).contains(members[k].id@),
        m.status == MemberStatus::Active ==> active_ids(members.push(m)) == active_ids(members).push(m.id@),
        m.status != MemberStatus::Active ==> active_ids(members.push(m)) == active_ids(members),
    decreases members.len(),
{
    assert(members.push(m).drop_last() =~= members);
    if members.len() > 0 {
        let init = members.drop_last();
        law_ranked_members_are_the_active_ones(init, members.last());
        assert forall|x: Seq<char>| active_ids(members).contains(x) implies exists|k: int|
            0 <= k < members.len() && (#[trigger] members[k]).id@ == x && members[k].status
                == MemberStatus::Active by {
            if active_ids(init).contains(x) {
                let k = choose|k: int|
                    0 <= k < init.len() && (#[trigger] init[k]).id@ == x && init[k].status == MemberStatus::Active;
                assert(members[k] == init[k]);
            } else {
                let n = members.len() - 1;
                assert(members[n] == members.last());
                let a = active_ids(init);
                if members.last().status == MemberStatus::Active {
                    let q = choose|q: int| 0 <= q < a.push(members.last().id@).len() && a.push(members.last().id@)[q] == x;
                    if q < a.len() {
                        assert(a.contains(x));
                    }
                }
            }
        }
        assert forall|k: int|
            0 <= k < members.len() && (#[trigger] members[k]).status == MemberStatus::Active
                implies active_ids(members).contains(members[k].id@) by {
            let a = active_ids(init);
            if k < members.len() - 1 {
                assert(members[k] == init[k]);
                assert(a.contains(init[k].id@));
                let q = choose|q: int| 0 <= q < a.len() && a[q] == init[k].id@;
                if members.last().status == MemberStatus::Active {
                    assert(a.push(members.last().id@)[q] == init[k].id@);
                }
            } else {
                assert(members[k] == members.last());
                assert(a.push(members.last().id@)[a.len() as int] == members.last().id@);
            }
        }
    }
}

pub fn active_member_ids(members: &Vec<PoolMember>) -> (r: Vec<String>)
    ensures
        ids_of(r@) == active_ids(members@),
{
    let mut r: Vec<String> = Vec::new();
    let mut i: usize = 0;
    while i < members.len()
        invariant
            i <= members.len(),
            ids_of(r@) == active_ids(members@.take(i as int)),
        decreases members.len() - i,
    {
        assert(members@.take(i + 1).drop_last() =~= members@.take(i as int));
        if members[i].status == MemberStatus::Active {
            let ghost before = r@;
            r.push(members[i].id.clone());
            assert(ids_of(r@) =~= ids_of(before).push(members@[i as int].id@));
        }
        i = i + 1;
    }
    assert(members@.take(members.len() as int) =~= members@);
    r
}

/// Reads the clock's text.
pub fn clock_now(text: &str) -> (r: Result<Moment, AppError>)
    ensures
        match moment_of(parsed_moment(text@)) {
            Some(m) => r == Ok::<Moment, AppError>(m),
            None => (r matches Err(e) && is_internal(e, "clock produced an invalid date-time"@)),
        },
{
    match parse_datetime(text) {
        Some(m) => Ok(m),
        None => Err(AppError::internal("clock produced an invalid date-time")),
    }
}

/// Minutes after kickoff before a result may be entered.
pub const RESULT_DELAY_MINUTES: i64 = 110;

/// Checks a result against its match and the clock, in the order the service
/// checks them, and gives the result to score pools against.
pub fn check_result_entry(
    match_id: &str,
    game: Option<&Match>,
    command: &EnterResult,
    now_text: &str,
) -> (r: Result<Overlay, AppError>)
    ensures
        command.home_score > MAX_SCORE || command.away_score > MAX_SCORE ==> (r matches Err(e)
            && is_validation(e, "score must be between 0 and 99"@)),
        command.home_score <= MAX_SCORE && command.away_score <= MAX_SCORE ==> match game {
            None => (r matches Err(e) && is_not_found(e, "match was not found"@)),
            Some(g) => if g.status == MatchStatus::Canceled {
                (r matches Err(e) && is_coded(
                    e,
                    CodedKind::Conflict,
                    "match_canceled"@,
                    "a result cannot be entered for a canceled match"@,
                ))
            } else {
                let w = match command.penalties_winner {
                    Some(s) => Some(s@),
                    None => None,
                };
                match penalties_verdict(
                    g.can_go_to_penalties,
                    command.home_score as int,
                    command.away_score as int,
                    w,
                ) {
                    Err(code) => (r matches Err(e) && penalties_error(e, code)),
                    Ok(winner) => match moment_of(parsed_moment(now_text@)) {
                        None => (r matches Err(e) && is_internal(
                            e,
                            "clock produced an invalid date-time"@,
                        )),
                        Some(now) => match moment_of(parsed_moment(g.kickoff_at@)) {
                            None => (r matches Err(e) && is_internal(
                                e,
                                "match has an invalid kickoff date-time"@,
                            )),
                            Some(kickoff) => if earlier(
                                now.secs as int,
                                now.nanos as int,
                                shifted_secs(kickoff, 110),
                                kickoff.nanos as int,
                            ) {
                                (r matches Err(e) && is_coded(
                                    e,
                                    CodedKind::Conflict,
                                    "result_too_early"@,
                                    "a result can only be entered after the match has been played"@,
                                ))
                            } else {
                                (r matches Ok(o) && o.match_id@ == match_id@ && o.home
                                    == command.home_score && o.away == command.away_score
                                    && o.penalties_winner == winner)
                            },
                        },
                    },
                }
            },
        },
{
    let home = match Score::new(command.home_score) {
        Ok(s) => s,
        Err(e) => return Err(e),
    };
    let away = match Score::new(command.away_score) {
        Ok(s) => s,
        Err(e) => return Err(e),
    };
    let game = match game {
        Some(g) => g,
        None => return Err(AppError::not_found("match was not found")),
    };
    if game.status == MatchStatus::Canceled {
        return Err(
            AppError::conflict_code(
                "match_canceled",
                "a result cannot be entered for a canceled match",
            ),
        );
    }
    let winner_text: Option<&str> = match &command.penalties_winner {
        Some(s) => Some(s.as_str()),
        None => None,
    };
    let penalties_winner = match resolve_penalties_winner(
        game,
        home.value(),
        away.value(),
        winner_text,
    ) {
        Ok(w) => w,
        Err(e) => return Err(e),
    };
    let now = match clock_now(now_text) {
        Ok(m) => m,
        Err(e) => return Err(e),
    };
    let kickoff = match parse_datetime(game.kickoff_at.as_str()) {
        Some(k) => k,
        None => return Err(AppError::internal("match has an invalid kickoff date-time")),
    };
    if before_shifted(now, kickoff, RESULT_DELAY_MINUTES) {
        return Err(
            AppError::conflict_code(
                "result_too_early",
                "a result can only be entered after the match has been played",
            ),
        );
    }
    Ok(
        Overlay {
            match_id: String::from_str(match_id),
            home: home.value(),
            away: away.value(),
            penalties_winner,
        },
    )
}

pub open spec fn is_active_member(m: Option<&PoolMember>) -> bool {
    m matches Some(x) && x.status == MemberStatus::Active
}

/// The id of the caller's membership when it is active.
pub fn resolve_active_member(membership: Option<&PoolMember>) -> (r: Result<String, AppError>)
    ensures
        is_active_member(membership) ==> (r matches Ok(id) && id == membership->0.id),
        !is_active_member(membership) ==> (r matches Err(e) && is_coded(
            e,
            CodedKind::Forbidden,
            "not_pool_member"@,
            "you are not a member of this pool"@,
        )),
{
    match membership {
        Some(m) => {
            if m.status == MemberStatus::Active {
                return Ok(m.id.clone());
            }
        },
        None => {},
    }
    Err(AppError::forbidden_code("not_pool_member", "you are not a member of this pool"))
}

/// Only active members see a pool's ranking and the members' predictions.
pub fn ensure_can_view(membership: Option<&PoolMember>) -> (r: Result<(), AppError>)
    ensures
        is_active_member(membership) ==> r is Ok,
        !is_active_member(membership) ==> (r matches Err(e) && is_coded(
            e,
            CodedKind::Forbidden,
            "not_pool_member"@,
            "this pool's ranking is private to its members"@,
        )),
{
    match membership {
        Some(m) => {
            if m.status == MemberStatus::Active {
                return Ok(());
            }
        },
        None => {},
    }
    Err(
        AppError::forbidden_code(
            "not_pool_member",
            "this pool's ranking is private to its members",
        ),
    )
}

/// A membership looked up by id must belong to the pool in question.
pub fn member_in_pool(member: Option<PoolMember>, pool_id: &str) -> (r: Result<PoolMember, AppError>)
    ensures
        (member matches Some(m) && m.pool_id@ == pool_id@) ==> r == Ok::<PoolMember, AppError>(
            member->0,
        ),
        !(member matches Some(m) && m.pool_id@ == pool_id@) ==> (r matches Err(e) && is_not_found(
            e,
            "pool member was not found"@,
        )),
{
    match member {
        Some(m) => {
            if str_eq(m.pool_id.as_str(), pool_id) {
                return Ok(m);
            }
            Err(AppError::not_found("pool member was not found"))
        },
        None => Err(AppError::not_found("pool member was not found")),
    }
}

} // verus!
