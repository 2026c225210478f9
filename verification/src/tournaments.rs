//! Tournaments, their stages, groups and teams.

use vstd::prelude::*;

use crate::domain::entities::{Tournament, TournamentGroup, TournamentStage, TournamentTeam};
use crate::domain::kinds::{
    stage_kind_from_text, tournament_status_from_text, tournament_status_text, StageKind,
    TournamentStatus,
};
use crate::domain::policy::tournament_transition_allowed;
use crate::domain::values::{
    bounded_name_error, calendar_date_shape, must_not_be_empty, slug_shape, CalendarDate,
    NonEmptyString, Slug,
};
use crate::error::{is_coded, is_not_found, is_validation, AppError, CodedKind};
use crate::text::{seq_lt, str_eq, str_lt, trim, trimmed};

verus! {

#[derive(Debug, Clone)]
pub struct CreateTournament {
    pub name: String,
    pub slug: String,
    pub season_year: Option<u16>,
    pub starts_on: Option<String>,
    pub ends_on: Option<String>,
}

#[derive(Debug, Clone)]
pub struct UpdateTournament {
    pub name: String,
    pub slug: String,
    pub season_year: Option<u16>,
    pub starts_on: Option<String>,
    pub ends_on: Option<String>,
    pub status: String,
}

#[derive(Debug, Clone)]
pub struct CreateStage {
    pub name: String,
    pub kind: String,
    pub ordering: u16,
}

#[derive(Debug, Clone)]
pub struct UpdateStage {
    pub name: String,
    pub kind: String,
    pub ordering: u16,
}

#[derive(Debug, Clone)]
pub struct CreateGroup {
    pub label: String,
}

#[derive(Debug, Clone)]
pub struct UpdateGroup {
    pub label: String,
}

#[derive(Debug, Clone)]
pub struct AssignTeam {
    pub team_id: String,
    pub group_id: Option<String>,
}

#[derive(Debug, Clone)]
pub struct TournamentDetail {
    pub tournament: Tournament,
    pub stages: Vec<TournamentStage>,
    pub groups: Vec<TournamentGroup>,
}

#[derive(Debug, Clone)]
pub struct CreateTournamentRecord {
    pub tournament_id: String,
    pub name: String,
    pub slug: String,
    pub season_year: Option<u16>,
    pub starts_on: Option<String>,
    pub ends_on: Option<String>,
    pub status: String,
}

#[derive(Debug, Clone)]
pub struct UpdateTournamentRecord {
    pub tournament_id: String,
    pub name: String,
    pub slug: String,
    pub season_year: Option<u16>,
    pub starts_on: Option<String>,
    pub ends_on: Option<String>,
    pub status: String,
}

#[derive(Debug, Clone)]
pub struct CreateStageRecord {
    pub stage_id: String,
    pub tournament_id: String,
    pub name: String,
    pub kind: String,
    pub ordering: u16,
}

#[derive(Debug, Clone)]
pub struct UpdateStageRecord {
    pub stage_id: String,
    pub name: String,
    pub kind: String,
    pub ordering: u16,
}

#[derive(Debug, Clone)]
pub struct CreateGroupRecord {
    pub group_id: String,
    pub tournament_id: String,
    pub label: String,
}

#[derive(Debug, Clone)]
pub struct UpdateGroupRecord {
    pub group_id: String,
    pub label: String,
}

#[derive(Debug, Clone)]
pub struct CreateAssignmentRecord {
    pub assignment_id: String,
    pub tournament_id: String,
    pub team_id: String,
    pub group_id: Option<String>,
}

/// Entry point of tournament management; holds the repository the caller drives.
pub struct TournamentUseCases<R> {
    pub tournaments: R,
}

impl<R> TournamentUseCases<R> {
    pub fn new(tournaments: R) -> (r: Self)
        ensures
            r.tournaments == tournaments,
    {
        TournamentUseCases { tournaments }
    }
}

fn bounded_name(value: String, field: &str, max: usize, too_long: &str) -> (r: Result<String, AppError>)
    ensures
        trimmed(value@).len() == 0 ==> (r matches Err(e) && is_validation(
            e,
            must_not_be_empty(field@),
        )),
        trimmed(value@).len() > max ==> (r matches Err(e) && is_validation(e, too_long@)),
        0 < trimmed(value@).len() <= max ==> (r matches Ok(n) && n@ == trimmed(value@)),
{
    let name = match NonEmptyString::new(value, field) {
        Ok(n) => n.value,
        Err(e) => return Err(e),
    };
    if name.as_str().unicode_len() > max {
        return Err(AppError::validation(too_long));
    }
    Ok(name)
}

/// A tournament name: at most 140 characters.
pub fn validate_name(value: String) -> (r: Result<String, AppError>)
    ensures
        trimmed(value@).len() == 0 ==> (r matches Err(e) && is_validation(
            e,
            must_not_be_empty("tournament.name"@),
        )),
        trimmed(value@).len() > 140 ==> (r matches Err(e) && is_validation(
            e,
            "tournament name must be at most 140 characters"@,
        )),
        0 < trimmed(value@).len() <= 140 ==> (r matches Ok(n) && n@ == trimmed(value@)),
{
    bounded_name(value, "tournament.name", 140, "tournament name must be at most 140 characters")
}

/// A stage name: at most 60 characters.
pub fn validate_stage_name(value: String) -> (r: Result<String, AppError>)
    ensures
        trimmed(value@).len() == 0 ==> (r matches Err(e) && is_validation(
            e,
            must_not_be_empty("stage.name"@),
        )),
        trimmed(value@).len() > 60 ==> (r matches Err(e) && is_validation(
            e,
            "stage name must be at most 60 characters"@,
        )),
        0 < trimmed(value@).len() <= 60 ==> (r matches Ok(n) && n@ == trimmed(value@)),
{
    bounded_name(value, "stage.name", 60, "stage name must be at most 60 characters")
}

/// A group label: at most 8 characters.
pub fn validate_group_label(value: String) -> (r: Result<String, AppError>)
    ensures
        trimmed(value@).len() == 0 ==> (r matches Err(e) && is_validation(
            e,
            must_not_be_empty("group.label"@),
        )),
        trimmed(value@).len() > 8 ==> (r matches Err(e) && is_validation(
            e,
            "group label must be at most 8 characters"@,
        )),
        0 < trimmed(value@).len() <= 8 ==> (r matches Ok(n) && n@ == trimmed(value@)),
{
    bounded_name(value, "group.label", 8, "group label must be at most 8 characters")
}

/// An optional date: absent or blank means none, otherwise a valid `YYYY-MM-DD`.
pub fn validate_date(value: Option<String>) -> (r: Result<Option<String>, AppError>)
    ensures
        match value {
            None => r matches Ok(None),
            Some(v) => if trimmed(v@).len() == 0 {
                r matches Ok(None)
            } else if calendar_date_shape(trimmed(v@)) {
                (r matches Ok(Some(d)) && d@ == trimmed(v@))
            } else {
                (r matches Err(e) && is_validation(e, "date must be a valid YYYY-MM-DD date"@))
            },
        },
{
    match value {
        None => Ok(None),
        Some(raw) => {
            let t = trim(raw.as_str());
            if t.unicode_len() == 0 {
                return Ok(None);
            }
            proof {
                lemma_trim_idempotent(raw@);
            }
            match CalendarDate::new(t) {
                Ok(d) => Ok(Some(d.value)),
                Err(e) => Err(e),
            }
        },
    }
}

proof fn lemma_trim_idempotent(s: Seq<char>)
    ensures
        trimmed(trimmed(s)) == trimmed(s),
{
    let t = trimmed(s);
    crate::text::lemma_first_non_ws(s);
    crate::text::lemma_end_non_ws(s);
    let a = crate::text::first_non_ws(s);
    let b = crate::text::end_non_ws(s);
    if a < b {
        assert(!crate::text::is_ws(t[0]));
        assert(!crate::text::is_ws(t[t.len() - 1]));
        crate::text::lemma_first_non_ws_unique(t, 0);
        crate::text::lemma_end_non_ws_unique(t, t.len() as int);
        assert(t.subrange(0, t.len() as int) =~= t);
    } else {
        assert(t.len() == 0);
    }
}

/// An end date before the start date is refused (dates compare as text,
/// which orders `YYYY-MM-DD` dates by time).
pub fn validate_date_range(starts_on: Option<&str>, ends_on: Option<&str>) -> (r: Result<(), AppError>)
    ensures
        (starts_on matches Some(s) && ends_on matches Some(e) && seq_lt(e@, s@)) ==> (r matches Err(
            x,
        ) && is_validation(x, "ends_on must be on or after starts_on"@)),
        !(starts_on matches Some(s) && ends_on matches Some(e) && seq_lt(e@, s@)) ==> r is Ok,
{
    match (starts_on, ends_on) {
        (Some(s), Some(e)) => {
            if str_lt(e, s) {
                return Err(AppError::validation("ends_on must be on or after starts_on"));
            }
            Ok(())
        },
        _ => Ok(()),
    }
}

pub fn slug_taken() -> (e: AppError)
    ensures
        is_coded(e, CodedKind::Conflict, "tournament_slug_taken"@, "tournament slug is already in use"@),
{
    AppError::conflict_code("tournament_slug_taken", "tournament slug is already in use")
}

pub fn stage_name_taken() -> (e: AppError)
    ensures
        is_coded(e, CodedKind::Conflict, "stage_name_taken"@, "stage name is already in use"@),
{
    AppError::conflict_code("stage_name_taken", "stage name is already in use")
}

pub fn group_label_taken() -> (e: AppError)
    ensures
        is_coded(e, CodedKind::Conflict, "group_label_taken"@, "group label is already in use"@),
{
    AppError::conflict_code("group_label_taken", "group label is already in use")
}

pub fn team_already_assigned() -> (e: AppError)
    ensures
        is_coded(
            e,
            CodedKind::Conflict,
            "team_already_assigned"@,
            "team is already assigned to this tournament"@,
        ),
{
    AppError::conflict_code("team_already_assigned", "team is already assigned to this tournament")
}

/// A tournament's checked fields.
#[derive(Debug, Clone)]
pub struct TournamentFields {
    pub name: String,
    pub slug: String,
    pub starts_on: Option<String>,
    pub ends_on: Option<String>,
}

pub open spec fn date_ok(v: Option<String>) -> bool {
    match v {
        None => true,
        Some(s) => trimmed(s@).len() == 0 || calendar_date_shape(trimmed(s@)),
    }
}

pub open spec fn date_value(v: Option<String>) -> Option<Seq<char>> {
    match v {
        None => None,
        Some(s) => if trimmed(s@).len() == 0 {
            None
        } else {
            Some(trimmed(s@))
        },
    }
}

pub open spec fn range_ok(starts: Option<Seq<char>>, ends: Option<Seq<char>>) -> bool {
    !(starts matches Some(s) && ends matches Some(e) && seq_lt(e, s))
}

pub open spec fn opt_string_view(v: Option<String>) -> Option<Seq<char>> {
    match v {
        None => None,
        Some(s) => Some(s@),
    }
}

/// The first thing wrong with a tournament's name, slug, dates and date
/// range, in that order.
pub open spec fn tournament_error(
    name: Seq<char>,
    slug: Seq<char>,
    starts_on: Option<String>,
    ends_on: Option<String>,
) -> Option<Seq<char>> {
    match bounded_name_error(name, "tournament.name"@, 140, "tournament name must be at most 140 characters"@) {
        Some(m) => Some(m),
        None => if !slug_shape(trimmed(slug)) {
            Some("slug must be 1 to 80 lowercase letters, digits or inner dashes"@)
        } else if !date_ok(starts_on) || !date_ok(ends_on) {
            Some("date must be a valid YYYY-MM-DD date"@)
        } else if !range_ok(date_value(starts_on), date_value(ends_on)) {
            Some("ends_on must be on or after starts_on"@)
        } else {
            None
        },
    }
}

/// Checks a tournament's name, slug, dates and date range, in that order.
pub fn prepare_tournament(
    name: String,
    slug: String,
    starts_on: Option<String>,
    ends_on: Option<String>,
) -> (r: Result<TournamentFields, AppError>)
    ensures
        match tournament_error(name@, slug@, starts_on, ends_on) {
            Some(m) => (r matches Err(e) && is_validation(e, m)),
            None => r is Ok,
        },
        r matches Ok(f) ==> f.name@ == trimmed(name@) && f.slug@ == trimmed(slug@)
            && opt_string_view(f.starts_on) == date_value(starts_on) && opt_string_view(f.ends_on)
            == date_value(ends_on),
{
    let name = match validate_name(name) {
        Ok(n) => n,
        Err(e) => return Err(e),
    };
    let slug = match Slug::new(slug) {
        Ok(s) => s.value,
        Err(e) => return Err(e),
    };
    let starts = match validate_date(starts_on) {
        Ok(d) => d,
        Err(e) => return Err(e),
    };
    let ends = match validate_date(ends_on) {
        Ok(d) => d,
        Err(e) => return Err(e),
    };
    let s_ref: Option<&str> = match &starts {
        Some(s) => Some(s.as_str()),
        None => None,
    };
    let e_ref: Option<&str> = match &ends {
        Some(s) => Some(s.as_str()),
        None => None,
    };
    if let Err(e) = validate_date_range(s_ref, e_ref) {
        return Err(e);
    }
    Ok(TournamentFields { name, slug, starts_on: starts, ends_on: ends })
}

/// A status change must be one the tournament lifecycle allows.
pub fn check_transition(current: TournamentStatus, target: &str) -> (r: Result<TournamentStatus, AppError>)
    ensures
        tournament_status_from_text(target@) is None ==> (r matches Err(e) && is_validation(
            e,
            "invalid tournament status"@,
        )),
        tournament_status_from_text(target@) matches Some(t) ==> if tournament_transition_allowed(
            current,
            t,
        ) {
            r == Ok::<TournamentStatus, AppError>(t)
        } else {
            (r matches Err(e) && is_coded(
                e,
                CodedKind::Conflict,
                "invalid_status_transition"@,
                "tournament status transition is not allowed"@,
            ))
        },
{
    let t = match TournamentStatus::parse(target) {
        Ok(t) => t,
        Err(e) => return Err(e),
    };
    if !current.can_transition_to(t) {
        return Err(
            AppError::conflict_code(
                "invalid_status_transition",
                "tournament status transition is not allowed",
            ),
        );
    }
    Ok(t)
}

/// A name, slug or label is free unless another item (not `own_id`) holds it.
pub open spec fn taken_by_other(existing_id: Option<Seq<char>>, own_id: Option<Seq<char>>) -> bool {
    match existing_id {
        None => false,
        Some(x) => match own_id {
            Some(id) => x != id,
            None => true,
        },
    }
}

pub fn is_taken_by_other(existing_id: Option<&str>, own_id: Option<&str>) -> (r: bool)
    ensures
        r == taken_by_other(
            match existing_id {
                Some(s) => Some(s@),
                None => None,
            },
            match own_id {
                Some(s) => Some(s@),
                None => None,
            },
        ),
{
    match existing_id {
        None => false,
        Some(x) => match own_id {
            Some(id) => !str_eq(x, id),
            None => true,
        },
    }
}

/// Checks a stage's name and kind.
pub fn prepare_stage(name: String, kind: &str) -> (r: Result<(String, StageKind), AppError>)
    ensures
        match bounded_name_error(name@, "stage.name"@, 60, "stage name must be at most 60 characters"@) {
            Some(m) => (r matches Err(e) && is_validation(e, m)),
            None => match stage_kind_from_text(kind@) {
                Some(k) => (r matches Ok(v) && v.0@ == trimmed(name@) && v.1 == k),
                None => (r matches Err(e) && is_validation(e, "invalid stage kind"@)),
            },
        },
{
    let name = match validate_stage_name(name) {
        Ok(n) => n,
        Err(e) => return Err(e),
    };
    let kind = match StageKind::parse(kind) {
        Ok(k) => k,
        Err(e) => return Err(e),
    };
    Ok((name, kind))
}

/// A team assignment: the team must exist, the group (if any) must exist and
/// belong to the tournament, and the team must not be assigned already.
pub fn check_assignment(
    tournament_id: &str,
    team_exists: bool,
    group: Option<Option<&TournamentGroup>>,
    already_assigned: bool,
) -> (r: Result<(), AppError>)
    ensures
        !team_exists ==> (r matches Err(e) && is_not_found(e, "team was not found"@)),
        team_exists ==> match group {
            Some(None) => (r matches Err(e) && is_not_found(e, "tournament group was not found"@)),
            Some(Some(g)) if g.tournament_id@ != tournament_id@ => (r matches Err(e) && is_coded(
                e,
                CodedKind::Conflict,
                "group_tournament_mismatch"@,
                "group does not belong to this tournament"@,
            )),
            _ => if already_assigned {
                (r matches Err(e) && is_coded(
                    e,
                    CodedKind::Conflict,
                    "team_already_assigned"@,
                    "team is already assigned to this tournament"@,
                ))
            } else {
                r is Ok
            },
        },
{
    if !team_exists {
        return Err(AppError::not_found("team was not found"));
    }
    match group {
        Some(None) => return Err(AppError::not_found("tournament group was not found")),
        Some(Some(g)) => {
            if !str_eq(g.tournament_id.as_str(), tournament_id) {
                return Err(
                    AppError::conflict_code(
                        "group_tournament_mismatch",
                        "group does not belong to this tournament",
                    ),
                );
            }
        },
        None => {},
    }
    if already_assigned {
        return Err(team_already_assigned());
    }
    Ok(())
}

/// An assignment to remove must exist and belong to the tournament.
pub fn check_unassign(assignment: Option<&TournamentTeam>, tournament_id: &str) -> (r: Result<(), AppError>)
    ensures
        (assignment matches Some(a) && a.tournament_id@ == tournament_id@) ==> r is Ok,
        !(assignment matches Some(a) && a.tournament_id@ == tournament_id@) ==> (r matches Err(e)
            && is_not_found(e, "team assignment was not found"@)),
{
    match assignment {
        Some(a) => if str_eq(a.tournament_id.as_str(), tournament_id) {
            Ok(())
        } else {
            Err(AppError::not_found("team assignment was not found"))
        },
        None => Err(AppError::not_found("team assignment was not found")),
    }
}

/// A tournament referenced by a pool cannot be deleted.
pub fn check_tournament_deletable(referenced_by_pools: bool) -> (r: Result<(), AppError>)
    ensures
        !referenced_by_pools ==> r is Ok,
        referenced_by_pools ==> (r matches Err(e) && is_coded(
            e,
            CodedKind::Conflict,
            "tournament_in_use"@,
            "tournament is referenced by a pool"@,
        )),
{
    if referenced_by_pools {
        return Err(AppError::conflict_code("tournament_in_use", "tournament is referenced by a pool"));
    }
    Ok(())
}

/// A new tournament starts as a draft.
pub fn new_tournament_record(tournament_id: String, fields: TournamentFields, season_year: Option<u16>) -> (r: CreateTournamentRecord)
    ensures
        r.tournament_id == tournament_id,
        r.name == fields.name,
        r.slug == fields.slug,
        r.season_year == season_year,
        r.starts_on == fields.starts_on,
        r.ends_on == fields.ends_on,
        r.status@ == tournament_status_text(TournamentStatus::Draft),
{
    CreateTournamentRecord {
        tournament_id,
        name: fields.name,
        slug: fields.slug,
        season_year,
        starts_on: fields.starts_on,
        ends_on: fields.ends_on,
        status: String::from_str(TournamentStatus::Draft.as_str()),
    }
}

} // verus!
