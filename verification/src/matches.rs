//! Matches of a tournament: what a match may be created or changed with.

use vstd::prelude::*;

use crate::domain::kinds::{match_status_from_text, match_status_text, MatchStatus};
use crate::domain::values::DomainId;
use crate::error::{is_coded, is_not_found, is_validation, AppError, CodedKind};
use crate::text::{str_eq, trim, trimmed};
use crate::time::{parsed_moment, seconds_text, validate_kickoff};

verus! {

#[derive(Debug, Clone)]
pub struct CreateMatch {
    pub stage_id: String,
    pub home_team_id: Option<String>,
    pub away_team_id: Option<String>,
    pub kickoff_at: String,
}

#[derive(Debug, Clone)]
pub struct UpdateMatch {
    pub stage_id: String,
    pub home_team_id: Option<String>,
    pub away_team_id: Option<String>,
    pub kickoff_at: String,
    pub status: String,
}

#[derive(Debug, Default)]
pub struct MatchFilters {
    pub stage_id: Option<String>,
    pub status: Option<String>,
    pub date_from: Option<String>,
    pub date_to: Option<String>,
}

#[derive(Debug, Clone)]
pub struct CreateMatchRecord {
    pub match_id: String,
    pub tournament_id: String,
    pub stage_id: String,
    pub home_team_id: Option<String>,
    pub away_team_id: Option<String>,
    pub kickoff_at: String,
    pub status: String,
    pub can_go_to_penalties: bool,
}

#[derive(Debug, Clone)]
pub struct UpdateMatchRecord {
    pub match_id: String,
    pub stage_id: String,
    pub home_team_id: Option<String>,
    pub away_team_id: Option<String>,
    pub kickoff_at: String,
    pub status: String,
    pub can_go_to_penalties: bool,
}

/// Entry point of match management; holds the repository and the notifier
/// the caller drives.
pub struct MatchUseCases<R, N> {
    pub matches: R,
    pub notifier: N,
}

impl<R, N> MatchUseCases<R, N> {
    pub fn new(matches: R, notifier: N) -> (r: Self)
        ensures
            r.matches == matches,
            r.notifier == notifier,
    {
        MatchUseCases { matches, notifier }
    }
}

/// The fields of a match once checked.
#[derive(Debug, Clone)]
pub struct ResolvedMatch {
    pub stage_id: String,
    pub home_team_id: Option<String>,
    pub away_team_id: Option<String>,
    pub kickoff_at: String,
}

pub open spec fn is_required(field: Seq<char>) -> Seq<char> {
    field + " is required"@
}

/// A required identifier, trimmed.
pub fn validate_id(value: String, field: &str) -> (r: Result<String, AppError>)
    ensures
        trimmed(value@).len() == 0 ==> (r matches Err(e) && is_validation(e, is_required(field@))),
        trimmed(value@).len() > 0 ==> (r matches Ok(v) && v@ == trimmed(value@)),
{
    let t = trim(value.as_str());
    if t.unicode_len() == 0 {
        return Err(AppError::Validation(String::from_str(field).concat(" is required")));
    }
    Ok(t)
}

/// An optional identifier, trimmed; a blank one counts as absent.
pub fn validate_opt_id(value: Option<String>, field: &str) -> (r: Result<Option<String>, AppError>)
    ensures
        match value {
            None => r matches Ok(None),
            Some(v) => if trimmed(v@).len() == 0 {
                r matches Ok(None)
            } else {
                (r matches Ok(Some(x)) && x@ == trimmed(v@))
            },
        },
{
    match value {
        None => Ok(None),
        Some(raw) => {
            let t = trim(raw.as_str());
            if t.unicode_len() == 0 {
                return Ok(None);
            }
            Ok(Some(t))
        },
    }
}

pub fn same_team() -> (e: AppError)
    ensures
        is_coded(e, CodedKind::Conflict, "match_same_team"@, "home and away teams must be different"@),
{
    AppError::conflict_code("match_same_team", "home and away teams must be different")
}

pub fn stage_tournament_mismatch() -> (e: AppError)
    ensures
        is_coded(
            e,
            CodedKind::Conflict,
            "stage_tournament_mismatch"@,
            "stage does not belong to this tournament"@,
        ),
{
    AppError::conflict_code("stage_tournament_mismatch", "stage does not belong to this tournament")
}

pub fn team_not_in_tournament() -> (e: AppError)
    ensures
        is_coded(
            e,
            CodedKind::Conflict,
            "team_not_in_tournament"@,
            "team does not participate in this tournament"@,
        ),
{
    AppError::conflict_code("team_not_in_tournament", "team does not participate in this tournament")
}

pub open spec fn opt_trimmed(v: Option<String>) -> Option<Seq<char>> {
    match v {
        None => None,
        Some(s) => if trimmed(s@).len() == 0 {
            None
        } else {
            Some(trimmed(s@))
        },
    }
}

pub open spec fn opt_view(v: Option<String>) -> Option<Seq<char>> {
    match v {
        None => None,
        Some(s) => Some(s@),
    }
}

/// The checks of a match's own fields: a stage, the two optional teams, a
/// readable kickoff, and two different teams.
pub fn resolve_match_fields(
    stage_id: String,
    home_team_id: Option<String>,
    away_team_id: Option<String>,
    kickoff_at: String,
) -> (r: Result<ResolvedMatch, AppError>)
    ensures
        trimmed(stage_id@).len() == 0 ==> (r matches Err(e) && is_validation(
            e,
            is_required("match.stage_id"@),
        )),
        r matches Ok(m) ==> {
            &&& m.stage_id@ == trimmed(stage_id@)
            &&& opt_view(m.home_team_id) == opt_trimmed(home_team_id)
            &&& opt_view(m.away_team_id) == opt_trimmed(away_team_id)
            &&& parsed_moment(kickoff_at@) matches Some((s, n)) && seconds_text(s, n) == Some(
                m.kickoff_at@,
            )
            &&& !(opt_trimmed(home_team_id) is Some && opt_trimmed(home_team_id) == opt_trimmed(
                away_team_id,
            ))
        },
        trimmed(stage_id@).len() > 0 && trimmed(kickoff_at@).len() > 0 && (parsed_moment(kickoff_at@) matches Some((s, n))
            && seconds_text(s, n) is Some) && opt_trimmed(home_team_id) is Some && opt_trimmed(
            home_team_id,
        ) == opt_trimmed(away_team_id) ==> (r matches Err(e) && is_coded(
            e,
            CodedKind::Conflict,
            "match_same_team"@,
            "home and away teams must be different"@,
        )),
        trimmed(stage_id@).len() > 0 && trimmed(kickoff_at@).len() > 0 && (parsed_moment(kickoff_at@) matches Some((s, n))
            && seconds_text(s, n) is Some) && !(opt_trimmed(home_team_id) is Some && opt_trimmed(
            home_team_id,
        ) == opt_trimmed(away_team_id)) ==> r is Ok,
        trimmed(stage_id@).len() > 0 && trimmed(kickoff_at@).len() == 0 ==> (r matches Err(e)
            && is_validation(e, "kickoff_at is required"@)),
        trimmed(stage_id@).len() > 0 && trimmed(kickoff_at@).len() > 0 && !(parsed_moment(kickoff_at@) matches Some((s, n))
            && seconds_text(s, n) is Some) ==> (r matches Err(e) && is_validation(
            e,
            "kickoff_at must be a valid date-time"@,
        )),
{
    let stage_id = match validate_id(stage_id, "match.stage_id") {
        Ok(v) => v,
        Err(e) => return Err(e),
    };
    let home = match validate_opt_id(home_team_id, "match.home_team_id") {
        Ok(v) => v,
        Err(e) => return Err(e),
    };
    let away = match validate_opt_id(away_team_id, "match.away_team_id") {
        Ok(v) => v,
        Err(e) => return Err(e),
    };
    let kickoff = match validate_kickoff(kickoff_at) {
        Ok(v) => v,
        Err(e) => return Err(e),
    };
    let distinct = match (&home, &away) {
        (Some(h), Some(a)) => !str_eq(h.as_str(), a.as_str()),
        _ => true,
    };
    if !distinct {
        return Err(same_team());
    }
    Ok(ResolvedMatch { stage_id, home_team_id: home, away_team_id: away, kickoff_at: kickoff })
}

/// The stage named by a match must exist (its tournament is `stage_tournament`)
/// and belong to the match's tournament.
pub fn check_stage(stage_tournament: Option<&str>, tournament_id: &str) -> (r: Result<(), AppError>)
    ensures
        stage_tournament is None ==> (r matches Err(e) && is_not_found(
            e,
            "tournament stage was not found"@,
        )),
        stage_tournament matches Some(t) ==> (t@ == tournament_id@ ==> r is Ok) && (t@
            != tournament_id@ ==> (r matches Err(e) && is_coded(
            e,
            CodedKind::Conflict,
            "stage_tournament_mismatch"@,
            "stage does not belong to this tournament"@,
        ))),
{
    match stage_tournament {
        None => Err(AppError::not_found("tournament stage was not found")),
        Some(t) => if str_eq(t, tournament_id) {
            Ok(())
        } else {
            Err(stage_tournament_mismatch())
        },
    }
}

/// A status filter, when given, must name a match status.
pub fn check_status_filter(filters: &MatchFilters) -> (r: Result<(), AppError>)
    ensures
        match filters.status {
            None => r is Ok,
            Some(s) => (match_status_from_text(s@) is Some ==> r is Ok) && (match_status_from_text(
                s@,
            ) is None ==> (r matches Err(e) && is_validation(e, "invalid match status"@))),
        },
{
    match &filters.status {
        None => Ok(()),
        Some(s) => match MatchStatus::parse(s.as_str()) {
            Ok(_) => Ok(()),
            Err(e) => Err(e),
        },
    }
}

/// A new match starts scheduled, without a shootout.
pub fn new_match_record(match_id: String, tournament_id: &str, resolved: ResolvedMatch) -> (r: CreateMatchRecord)
    ensures
        r.match_id == match_id,
        r.tournament_id@ == tournament_id@,
        r.stage_id == resolved.stage_id,
        r.home_team_id == resolved.home_team_id,
        r.away_team_id == resolved.away_team_id,
        r.kickoff_at == resolved.kickoff_at,
        r.status@ == match_status_text(MatchStatus::Scheduled),
        !r.can_go_to_penalties,
{
    CreateMatchRecord {
        match_id,
        tournament_id: String::from_str(tournament_id),
        stage_id: resolved.stage_id,
        home_team_id: resolved.home_team_id,
        away_team_id: resolved.away_team_id,
        kickoff_at: resolved.kickoff_at,
        status: String::from_str(MatchStatus::Scheduled.as_str()),
        can_go_to_penalties: false,
    }
}

} // verus!
