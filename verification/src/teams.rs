//! Teams: names, codes and flags.

use vstd::prelude::*;

use crate::domain::entities::Team;
use crate::domain::values::{
    bounded_name_error, must_not_be_empty, team_code_shape, NonEmptyString, TeamCode,
};
use crate::error::{is_coded, is_validation, AppError, CodedKind};
use crate::text::{str_eq, trimmed};

verus! {

#[derive(Debug, Clone)]
pub struct CreateTeam {
    pub name: String,
    pub code: String,
    pub flag_emoji: Option<String>,
}

#[derive(Debug, Clone)]
pub struct UpdateTeam {
    pub name: String,
    pub code: String,
    pub flag_emoji: Option<String>,
}

#[derive(Debug, Clone)]
pub struct CreateTeamRecord {
    pub team_id: String,
    pub name: String,
    pub code: String,
    pub flag_emoji: Option<String>,
}

#[derive(Debug, Clone)]
pub struct UpdateTeamRecord {
    pub team_id: String,
    pub name: String,
    pub code: String,
    pub flag_emoji: Option<String>,
}

/// Entry point of team management; holds the repository the caller drives.
pub struct TeamUseCases<R> {
    pub teams: R,
}

impl<R> TeamUseCases<R> {
    pub fn new(teams: R) -> (r: Self)
        ensures
            r.teams == teams,
    {
        TeamUseCases { teams }
    }
}

/// A team name: not blank, at most 120 characters once trimmed.
pub fn validate_name(value: String) -> (r: Result<String, AppError>)
    ensures
        trimmed(value@).len() == 0 ==> (r matches Err(e) && is_validation(
            e,
            must_not_be_empty("team.name"@),
        )),
        trimmed(value@).len() > 120 ==> (r matches Err(e) && is_validation(
            e,
            "team name must be at most 120 characters"@,
        )),
        0 < trimmed(value@).len() <= 120 ==> (r matches Ok(n) && n@ == trimmed(value@)),
{
    let name = match NonEmptyString::new(value, "team.name") {
        Ok(n) => n.value,
        Err(e) => return Err(e),
    };
    if name.as_str().unicode_len() > 120 {
        return Err(AppError::validation("team name must be at most 120 characters"));
    }
    Ok(name)
}

/// An optional flag emoji: not blank, at most 16 characters once trimmed.
pub fn validate_flag_emoji(value: Option<String>) -> (r: Result<Option<String>, AppError>)
    ensures
        match value {
            None => r matches Ok(None),
            Some(v) => if trimmed(v@).len() == 0 {
                (r matches Err(e) && is_validation(e, must_not_be_empty("team.flag_emoji"@)))
            } else if trimmed(v@).len() > 16 {
                (r matches Err(e) && is_validation(
                    e,
                    "team flag emoji must be at most 16 characters"@,
                ))
            } else {
                (r matches Ok(Some(f)) && f@ == trimmed(v@))
            },
        },
{
    match value {
        None => Ok(None),
        Some(raw) => {
            let flag = match NonEmptyString::new(raw, "team.flag_emoji") {
                Ok(n) => n.value,
                Err(e) => return Err(e),
            };
            if flag.as_str().unicode_len() > 16 {
                return Err(AppError::validation("team flag emoji must be at most 16 characters"));
            }
            Ok(Some(flag))
        },
    }
}

/// A team's checked name, code and flag.
#[derive(Debug, Clone)]
pub struct TeamFields {
    pub name: String,
    pub code: String,
    pub flag_emoji: Option<String>,
}

/// The first thing wrong with a team's name, code and flag, in that order.
pub open spec fn team_error(name: Seq<char>, code: Seq<char>, flag_emoji: Option<String>) -> Option<Seq<char>> {
    match bounded_name_error(name, "team.name"@, 120, "team name must be at most 120 characters"@) {
        Some(m) => Some(m),
        None => if !team_code_shape(trimmed(code)) {
            Some("team code must be 2 to 8 letters or digits"@)
        } else {
            match flag_emoji {
                None => None,
                Some(v) => bounded_name_error(
                    v@,
                    "team.flag_emoji"@,
                    16,
                    "team flag emoji must be at most 16 characters"@,
                ),
            }
        },
    }
}

/// Checks name, then code, then flag.
pub fn prepare_team(name: String, code: String, flag_emoji: Option<String>) -> (r: Result<TeamFields, AppError>)
    ensures
        match team_error(name@, code@, flag_emoji) {
            Some(m) => (r matches Err(e) && is_validation(e, m)),
            None => r is Ok,
        },
        r matches Ok(f) ==> {
            &&& f.name@ == trimmed(name@)
            &&& f.code@ == trimmed(code@)
            &&& match flag_emoji {
                None => f.flag_emoji is None,
                Some(v) => f.flag_emoji matches Some(x) && x@ == trimmed(v@),
            }
        },
{
    let name = match validate_name(name) {
        Ok(n) => n,
        Err(e) => return Err(e),
    };
    let code = match TeamCode::new(code) {
        Ok(c) => c.value,
        Err(e) => return Err(e),
    };
    let flag = match validate_flag_emoji(flag_emoji) {
        Ok(f) => f,
        Err(e) => return Err(e),
    };
    Ok(TeamFields { name, code, flag_emoji: flag })
}

/// A team code is free unless another team (not `own_id`) already has it.
pub fn check_code_free(existing: Option<&Team>, own_id: Option<&str>) -> (r: Result<(), AppError>)
    ensures
        match existing {
            None => r is Ok,
            Some(t) => match own_id {
                Some(id) => if t.id@ == id@ {
                    r is Ok
                } else {
                    (r matches Err(e) && is_coded(
                        e,
                        CodedKind::Conflict,
                        "team_code_taken"@,
                        "team code is already in use"@,
                    ))
                },
                None => (r matches Err(e) && is_coded(
                    e,
                    CodedKind::Conflict,
                    "team_code_taken"@,
                    "team code is already in use"@,
                )),
            },
        },
{
    match existing {
        None => Ok(()),
        Some(t) => {
            match own_id {
                Some(id) => {
                    if str_eq(t.id.as_str(), id) {
                        return Ok(());
                    }
                },
                None => {},
            }
            Err(AppError::conflict_code("team_code_taken", "team code is already in use"))
        },
    }
}

/// A team still referenced by a tournament or match cannot be deleted.
pub fn check_team_deletable(is_referenced: bool) -> (r: Result<(), AppError>)
    ensures
        !is_referenced ==> r is Ok,
        is_referenced ==> (r matches Err(e) && is_coded(
            e,
            CodedKind::Conflict,
            "team_in_use"@,
            "team is referenced by a tournament or match"@,
        )),
{
    if is_referenced {
        return Err(
            AppError::conflict_code("team_in_use", "team is referenced by a tournament or match"),
        );
    }
    Ok(())
}

} // verus!
