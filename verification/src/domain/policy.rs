use vstd::prelude::*;

use crate::domain::kinds::{NotificationType, PoolRole, TournamentStatus, UserRole};

verus! {

pub open spec fn role_manages_members(role: PoolRole) -> bool {
    role == PoolRole::Owner || role == PoolRole::Admin
}

/// Which status changes a tournament allows: staying put, the forward steps
/// draft → active → finished, and archiving from any other status.
pub open spec fn tournament_transition_allowed(from: TournamentStatus, to: TournamentStatus) -> bool {
    ||| from == to
    ||| (from == TournamentStatus::Draft && to == TournamentStatus::Active)
    ||| (from == TournamentStatus::Active && to == TournamentStatus::Finished)
    ||| (from != TournamentStatus::Archived && to == TournamentStatus::Archived)
}

/// How far along its life a tournament is.
pub open spec fn tournament_progress(s: TournamentStatus) -> int {
    match s {
        TournamentStatus::Draft => 0,
        TournamentStatus::Active => 1,
        TournamentStatus::Finished => 2,
        TournamentStatus::Archived => 3,
    }
}

/// A tournament's status never moves back, and an archived tournament stays
/// archived.
pub proof fn law_tournament_status_moves_forward(from: TournamentStatus, to: TournamentStatus)
    requires
        tournament_transition_allowed(from, to),
    ensures
        tournament_progress(from) <= tournament_progress(to),
        from == TournamentStatus::Archived ==> to == TournamentStatus::Archived,
{
}

impl PoolRole {
    /// Owners and admins manage members, settings and the allowlist.
    pub fn can_manage_members(&self) -> (r: bool)
        ensures
            r == role_manages_members(*self),
    {
        match self {
            PoolRole::Owner => true,
            PoolRole::Admin => true,
            PoolRole::Member => false,
        }
    }

    pub fn is_owner(&self) -> (r: bool)
        ensures
            r == (*self == PoolRole::Owner),
    {
        match self {
            PoolRole::Owner => true,
            _ => false,
        }
    }
}

impl TournamentStatus {
    pub fn can_transition_to(&self, target: TournamentStatus) -> (r: bool)
        ensures
            r == tournament_transition_allowed(*self, target),
    {
        match (self, target) {
            (TournamentStatus::Draft, TournamentStatus::Draft) => true,
            (TournamentStatus::Active, TournamentStatus::Active) => true,
            (TournamentStatus::Finished, TournamentStatus::Finished) => true,
            (TournamentStatus::Archived, TournamentStatus::Archived) => true,
            (TournamentStatus::Draft, TournamentStatus::Active) => true,
            (TournamentStatus::Active, TournamentStatus::Finished) => true,
            (TournamentStatus::Archived, _) => false,
            (_, TournamentStatus::Archived) => true,
            _ => false,
        }
    }
}

impl NotificationType {
    /// Every type but invitations can be switched on or off by the user.
    pub fn is_preferenceable(&self) -> (r: bool)
        ensures
            r == (*self != NotificationType::Invite),
    {
        match self {
            NotificationType::Invite => false,
            _ => true,
        }
    }
}

impl UserRole {
    pub fn is_admin(&self) -> (r: bool)
        ensures
            r == (*self == UserRole::Admin),
    {
        match self {
            UserRole::Admin => true,
            UserRole::User => false,
        }
    }
}

} // verus!
