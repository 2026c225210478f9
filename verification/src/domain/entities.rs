use vstd::prelude::*;

use crate::domain::kinds::{
    Channel, MatchStatus, MemberStatus, NotificationType, PenaltySide, PoolRole, PoolStatus,
    ScoringRuleKey, StageKind, TournamentStatus, UserRole,
};
use crate::domain::values::Score;

verus! {

/// A registered person.
#[derive(Debug, Clone)]
pub struct User {
    pub id: String,
    pub email: String,
    pub password_hash: String,
    pub display_name: String,
    pub is_active: bool,
    pub role: UserRole,
    pub sync_predictions_across_pools: bool,
}

/// A prediction pool attached to one tournament.
#[derive(Debug, Clone)]
pub struct Pool {
    pub id: String,
    pub tournament_id: String,
    pub owner_user_id: String,
    pub name: String,
    pub invite_code: String,
    pub join_requires_allowlist: bool,
    pub prediction_lock_offset_minutes: u16,
    pub status: PoolStatus,
}

/// A user's membership in a pool.
#[derive(Debug, Clone)]
pub struct PoolMember {
    pub id: String,
    pub pool_id: String,
    pub user_id: String,
    pub role: PoolRole,
    pub status: MemberStatus,
    pub joined_at: String,
    pub left_at: Option<String>,
}

/// How many points a pool gives for one kind of hit.
#[derive(Debug, Clone)]
pub struct PoolScoringRule {
    pub id: String,
    pub pool_id: String,
    pub rule_key: ScoringRuleKey,
    pub points: i16,
}

/// An address allowed to join a pool that requires an allowlist.
#[derive(Debug, Clone)]
pub struct PoolAllowedEmail {
    pub id: String,
    pub pool_id: String,
    pub email: String,
    pub created_at: String,
}

/// A match of a tournament.
#[derive(Debug, Clone)]
pub struct Match {
    pub id: String,
    pub tournament_id: String,
    pub stage_id: String,
    pub home_team_id: Option<String>,
    pub away_team_id: Option<String>,
    pub kickoff_at: String,
    pub status: MatchStatus,
    pub home_score: Option<Score>,
    pub away_score: Option<Score>,
    pub penalties_winner: Option<PenaltySide>,
    pub can_go_to_penalties: bool,
    pub finished_at: Option<String>,
}

/// A member's guess for one match.
#[derive(Debug, Clone)]
pub struct Prediction {
    pub id: String,
    pub pool_member_id: String,
    pub match_id: String,
    pub home_score: Score,
    pub away_score: Score,
    pub penalties_pick: Option<PenaltySide>,
    pub points_awarded: Option<i16>,
    pub scored_at: Option<String>,
}

/// A national or club team.
#[derive(Debug, Clone)]
pub struct Team {
    pub id: String,
    pub name: String,
    pub code: String,
    pub flag_emoji: Option<String>,
    pub flag_file_id: Option<String>,
}

#[derive(Debug, Clone)]
pub struct Tournament {
    pub id: String,
    pub name: String,
    pub slug: String,
    pub season_year: Option<u16>,
    pub starts_on: Option<String>,
    pub ends_on: Option<String>,
    pub status: TournamentStatus,
}

#[derive(Debug, Clone)]
pub struct TournamentStage {
    pub id: String,
    pub tournament_id: String,
    pub name: String,
    pub kind: StageKind,
    pub ordering: u16,
}

#[derive(Debug, Clone)]
pub struct TournamentGroup {
    pub id: String,
    pub tournament_id: String,
    pub label: String,
}

/// A team taking part in a tournament, possibly inside a group.
#[derive(Debug, Clone)]
pub struct TournamentTeam {
    pub id: String,
    pub tournament_id: String,
    pub team_id: String,
    pub group_id: Option<String>,
}

#[derive(Debug, Clone)]
pub struct Notification {
    pub id: String,
    pub user_id: String,
    pub pool_id: Option<String>,
    pub notification_type: NotificationType,
    pub title: String,
    pub body: String,
    pub related_match_id: Option<String>,
    pub read_at: Option<String>,
    pub created_at: String,
}

/// Whether a user wants one type of notification on one channel, for one
/// pool (`pool_id` set) or everywhere (`pool_id` empty).
#[derive(Debug, Clone)]
pub struct NotificationPreference {
    pub id: String,
    pub user_id: String,
    pub pool_id: Option<String>,
    pub notification_type: NotificationType,
    pub channel: Channel,
    pub enabled: bool,
}

/// An uploaded file.
#[derive(Debug, Clone)]
pub struct File {
    pub id: String,
    pub owner_user_id: Option<String>,
    pub bucket: String,
    pub object_key: String,
    pub content_type: String,
    pub byte_size: u64,
    pub original_name: String,
    pub checksum_sha256: Option<String>,
    pub created_at: String,
}

/// A member's place in a pool's ranking.
#[derive(Debug, Clone)]
pub struct Standing {
    pub id: String,
    pub pool_id: String,
    pub pool_member_id: String,
    pub total_points: i32,
    pub exact_count: i32,
    pub outcome_count: i32,
    pub hits_count: i32,
    pub penalties_count: i32,
    pub position: i32,
}

} // verus!
