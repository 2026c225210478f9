use vstd::prelude::*;

use crate::error::{is_validation, AppError};
use crate::text::str_eq;

verus! {

/// Lifecycle of a match.
#[derive(Debug, Clone, Copy, PartialEq, Eq, Structural)]
pub enum MatchStatus {
    Scheduled,
    Live,
    Finished,
    Canceled,
}

/// The text form of a `MatchStatus`.
pub open spec fn match_status_text(v: MatchStatus) -> Seq<char> {
    match v {
        MatchStatus::Scheduled => "scheduled"@,
        MatchStatus::Live => "live"@,
        MatchStatus::Finished => "finished"@,
        MatchStatus::Canceled => "canceled"@,
    }
}

/// The `MatchStatus` written as `s`, if any.
pub open spec fn match_status_from_text(s: Seq<char>) -> Option<MatchStatus> {
    if s == "scheduled"@ {
        Some(MatchStatus::Scheduled)
    } else if s == "live"@ {
        Some(MatchStatus::Live)
    } else if s == "finished"@ {
        Some(MatchStatus::Finished)
    } else if s == "canceled"@ {
        Some(MatchStatus::Canceled)
    } else {
        None
    }
}

impl MatchStatus {
    pub fn as_str(&self) -> (r: &'static str)
        ensures
            r@ == match_status_text(*self),
    {
        match self {
            MatchStatus::Scheduled => "scheduled",
            MatchStatus::Live => "live",
            MatchStatus::Finished => "finished",
            MatchStatus::Canceled => "canceled",
        }
    }

    /// Reads a `MatchStatus` from its text form.
    pub fn parse(value: &str) -> (r: Result<MatchStatus, AppError>)
        ensures
            r matches Ok(v) ==> match_status_from_text(value@) == Some(v),
            r is Err <==> match_status_from_text(value@) is None,
            r matches Err(e) ==> is_validation(e, "invalid match status"@),
    {
        if str_eq(value, "scheduled") {
            Ok(MatchStatus::Scheduled)
        } else if str_eq(value, "live") {
            Ok(MatchStatus::Live)
        } else if str_eq(value, "finished") {
            Ok(MatchStatus::Finished)
        } else if str_eq(value, "canceled") {
            Ok(MatchStatus::Canceled)
        } else {
            Err(AppError::validation("invalid match status"))
        }
    }
}

/// Reading back the text of a `MatchStatus` gives the same value.
pub proof fn lemma_match_status_round_trip(v: MatchStatus)
    ensures
        match_status_from_text(match_status_text(v)) == Some(v),
{
    reveal_strlit("scheduled");
    reveal_strlit("live");
    reveal_strlit("finished");
    reveal_strlit("canceled");
    assert("scheduled"@.len() != "live"@.len());
    assert("scheduled"@.len() != "finished"@.len());
    assert("scheduled"@.len() != "canceled"@.len());
    assert("live"@.len() != "scheduled"@.len());
    assert("live"@.len() != "finished"@.len());
    assert("live"@.len() != "canceled"@.len());
    assert("finished"@.len() != "scheduled"@.len());
    assert("finished"@.len() != "live"@.len());
    assert("finished"@[0] != "canceled"@[0]);
    assert("canceled"@.len() != "scheduled"@.len());
    assert("canceled"@.len() != "live"@.len());
    assert("canceled"@[0] != "finished"@[0]);
}

/// Whether a pool still takes predictions.
#[derive(Debug, Clone, Copy, PartialEq, Eq, Structural)]
pub enum PoolStatus {
    Active,
    Archived,
}

/// The text form of a `PoolStatus`.
pub open spec fn pool_status_text(v: PoolStatus) -> Seq<char> {
    match v {
        PoolStatus::Active => "active"@,
        PoolStatus::Archived => "archived"@,
    }
}

/// The `PoolStatus` written as `s`, if any.
pub open spec fn pool_status_from_text(s: Seq<char>) -> Option<PoolStatus> {
    if s == "active"@ {
        Some(PoolStatus::Active)
    } else if s == "archived"@ {
        Some(PoolStatus::Archived)
    } else {
        None
    }
}

impl PoolStatus {
    pub fn as_str(&self) -> (r: &'static str)
        ensures
            r@ == pool_status_text(*self),
    {
        match self {
            PoolStatus::Active => "active",
            PoolStatus::Archived => "archived",
        }
    }

    /// Reads a `PoolStatus` from its text form.
    pub fn parse(value: &str) -> (r: Result<PoolStatus, AppError>)
        ensures
            r matches Ok(v) ==> pool_status_from_text(value@) == Some(v),
            r is Err <==> pool_status_from_text(value@) is None,
            r matches Err(e) ==> is_validation(e, "invalid pool status"@),
    {
        if str_eq(value, "active") {
            Ok(PoolStatus::Active)
        } else if str_eq(value, "archived") {
            Ok(PoolStatus::Archived)
        } else {
            Err(AppError::validation("invalid pool status"))
        }
    }
}

/// Reading back the text of a `PoolStatus` gives the same value.
pub proof fn lemma_pool_status_round_trip(v: PoolStatus)
    ensures
        pool_status_from_text(pool_status_text(v)) == Some(v),
{
    reveal_strlit("active");
    reveal_strlit("archived");
    assert("active"@.len() != "archived"@.len());
    assert("archived"@.len() != "active"@.len());
}

/// Whether a membership is current.
#[derive(Debug, Clone, Copy, PartialEq, Eq, Structural)]
pub enum MemberStatus {
    Active,
    Inactive,
}

/// The text form of a `MemberStatus`.
pub open spec fn member_status_text(v: MemberStatus) -> Seq<char> {
    match v {
        MemberStatus::Active => "active"@,
        MemberStatus::Inactive => "inactive"@,
    }
}

/// The `MemberStatus` written as `s`, if any.
pub open spec fn member_status_from_text(s: Seq<char>) -> Option<MemberStatus> {
    if s == "active"@ {
        Some(MemberStatus::Active)
    } else if s == "inactive"@ {
        Some(MemberStatus::Inactive)
    } else {
        None
    }
}

impl MemberStatus {
    pub fn as_str(&self) -> (r: &'static str)
        ensures
            r@ == member_status_text(*self),
    {
        match self {
            MemberStatus::Active => "active",
            MemberStatus::Inactive => "inactive",
        }
    }

    /// Reads a `MemberStatus` from its text form.
    pub fn parse(value: &str) -> (r: Result<MemberStatus, AppError>)
        ensures
            r matches Ok(v) ==> member_status_from_text(value@) == Some(v),
            r is Err <==> member_status_from_text(value@) is None,
            r matches Err(e) ==> is_validation(e, "invalid member status"@),
    {
        if str_eq(value, "active") {
            Ok(MemberStatus::Active)
        } else if str_eq(value, "inactive") {
            Ok(MemberStatus::Inactive)
        } else {
            Err(AppError::validation("invalid member status"))
        }
    }
}

/// Reading back the text of a `MemberStatus` gives the same value.
pub proof fn lemma_member_status_round_trip(v: MemberStatus)
    ensures
        member_status_from_text(member_status_text(v)) == Some(v),
{
    reveal_strlit("active");
    reveal_strlit("inactive");
    assert("active"@.len() != "inactive"@.len());
    assert("inactive"@.len() != "active"@.len());
}

/// Role of a member inside a pool.
#[derive(Debug, Clone, Copy, PartialEq, Eq, Structural)]
pub enum PoolRole {
    Owner,
    Admin,
    Member,
}

/// The text form of a `PoolRole`.
pub open spec fn pool_role_text(v: PoolRole) -> Seq<char> {
    match v {
        PoolRole::Owner => "owner"@,
        PoolRole::Admin => "admin"@,
        PoolRole::Member => "member"@,
    }
}

/// The `PoolRole` written as `s`, if any.
pub open spec fn pool_role_from_text(s: Seq<char>) -> Option<PoolRole> {
    if s == "owner"@ {
        Some(PoolRole::Owner)
    } else if s == "admin"@ {
        Some(PoolRole::Admin)
    } else if s == "member"@ {
        Some(PoolRole::Member)
    } else {
        None
    }
}

impl PoolRole {
    pub fn as_str(&self) -> (r: &'static str)
        ensures
            r@ == pool_role_text(*self),
    {
        match self {
            PoolRole::Owner => "owner",
            PoolRole::Admin => "admin",
            PoolRole::Member => "member",
        }
    }

    /// Reads a `PoolRole` from its text form.
    pub fn parse(value: &str) -> (r: Result<PoolRole, AppError>)
        ensures
            r matches Ok(v) ==> pool_role_from_text(value@) == Some(v),
            r is Err <==> pool_role_from_text(value@) is None,
            r matches Err(e) ==> is_validation(e, "invalid pool role"@),
    {
        if str_eq(value, "owner") {
            Ok(PoolRole::Owner)
        } else if str_eq(value, "admin") {
            Ok(PoolRole::Admin)
        } else if str_eq(value, "member") {
            Ok(PoolRole::Member)
        } else {
            Err(AppError::validation("invalid pool role"))
        }
    }
}

/// Reading back the text of a `PoolRole` gives the same value.
pub proof fn lemma_pool_role_round_trip(v: PoolRole)
    ensures
        pool_role_from_text(pool_role_text(v)) == Some(v),
{
    reveal_strlit("owner");
    reveal_strlit("admin");
    reveal_strlit("member");
    assert("owner"@[0] != "admin"@[0]);
    assert("owner"@.len() != "member"@.len());
    assert("admin"@[0] != "owner"@[0]);
    assert("admin"@.len() != "member"@.len());
    assert("member"@.len() != "owner"@.len());
    assert("member"@.len() != "admin"@.len());
}

/// The kinds of points a pool can award.
#[derive(Debug, Clone, Copy, PartialEq, Eq, Structural)]
pub enum ScoringRuleKey {
    ExactScore,
    CorrectOutcome,
    PenaltiesWinner,
}

/// The text form of a `ScoringRuleKey`.
pub open spec fn scoring_rule_key_text(v: ScoringRuleKey) -> Seq<char> {
    match v {
        ScoringRuleKey::ExactScore => "exact_score"@,
        ScoringRuleKey::CorrectOutcome => "correct_outcome"@,
        ScoringRuleKey::PenaltiesWinner => "penalties_winner"@,
    }
}

/// The `ScoringRuleKey` written as `s`, if any.
pub open spec fn scoring_rule_key_from_text(s: Seq<char>) -> Option<ScoringRuleKey> {
    if s == "exact_score"@ {
        Some(ScoringRuleKey::ExactScore)
    } else if s == "correct_outcome"@ {
        Some(ScoringRuleKey::CorrectOutcome)
    } else if s == "penalties_winner"@ {
        Some(ScoringRuleKey::PenaltiesWinner)
    } else {
        None
    }
}

impl ScoringRuleKey {
    pub fn as_str(&self) -> (r: &'static str)
        ensures
            r@ == scoring_rule_key_text(*self),
    {
        match self {
            ScoringRuleKey::ExactScore => "exact_score",
            ScoringRuleKey::CorrectOutcome => "correct_outcome",
            ScoringRuleKey::PenaltiesWinner => "penalties_winner",
        }
    }

    /// Reads a `ScoringRuleKey` from its text form.
    pub fn parse(value: &str) -> (r: Result<ScoringRuleKey, AppError>)
        ensures
            r matches Ok(v) ==> scoring_rule_key_from_text(value@) == Some(v),
            r is Err <==> scoring_rule_key_from_text(value@) is None,
            r matches Err(e) ==> is_validation(e, "invalid scoring rule key"@),
    {
        if str_eq(value, "exact_score") {
            Ok(ScoringRuleKey::ExactScore)
        } else if str_eq(value, "correct_outcome") {
            Ok(ScoringRuleKey::CorrectOutcome)
        } else if str_eq(value, "penalties_winner") {
            Ok(ScoringRuleKey::PenaltiesWinner)
        } else {
            Err(AppError::validation("invalid scoring rule key"))
        }
    }
}

/// Reading back the text of a `ScoringRuleKey` gives the same value.
pub proof fn lemma_scoring_rule_key_round_trip(v: ScoringRuleKey)
    ensures
        scoring_rule_key_from_text(scoring_rule_key_text(v)) == Some(v),
{
    reveal_strlit("exact_score");
    reveal_strlit("correct_outcome");
    reveal_strlit("penalties_winner");
    assert("exact_score"@.len() != "correct_outcome"@.len());
    assert("exact_score"@.len() != "penalties_winner"@.len());
    assert("correct_outcome"@.len() != "exact_score"@.len());
    assert("correct_outcome"@.len() != "penalties_winner"@.len());
    assert("penalties_winner"@.len() != "exact_score"@.len());
    assert("penalties_winner"@.len() != "correct_outcome"@.len());
}

/// Lifecycle of a tournament.
#[derive(Debug, Clone, Copy, PartialEq, Eq, Structural)]
pub enum TournamentStatus {
    Draft,
    Active,
    Finished,
    Archived,
}

/// The text form of a `TournamentStatus`.
pub open spec fn tournament_status_text(v: TournamentStatus) -> Seq<char> {
    match v {
        TournamentStatus::Draft => "draft"@,
        TournamentStatus::Active => "active"@,
        TournamentStatus::Finished => "finished"@,
        TournamentStatus::Archived => "archived"@,
    }
}

/// The `TournamentStatus` written as `s`, if any.
pub open spec fn tournament_status_from_text(s: Seq<char>) -> Option<TournamentStatus> {
    if s == "draft"@ {
        Some(TournamentStatus::Draft)
    } else if s == "active"@ {
        Some(TournamentStatus::Active)
    } else if s == "finished"@ {
        Some(TournamentStatus::Finished)
    } else if s == "archived"@ {
        Some(TournamentStatus::Archived)
    } else {
        None
    }
}

impl TournamentStatus {
    pub fn as_str(&self) -> (r: &'static str)
        ensures
            r@ == tournament_status_text(*self),
    {
        match self {
            TournamentStatus::Draft => "draft",
            TournamentStatus::Active => "active",
            TournamentStatus::Finished => "finished",
            TournamentStatus::Archived => "archived",
        }
    }

    /// Reads a `TournamentStatus` from its text form.
    pub fn parse(value: &str) -> (r: Result<TournamentStatus, AppError>)
        ensures
            r matches Ok(v) ==> tournament_status_from_text(value@) == Some(v),
            r is Err <==> tournament_status_from_text(value@) is None,
            r matches Err(e) ==> is_validation(e, "invalid tournament status"@),
    {
        if str_eq(value, "draft") {
            Ok(TournamentStatus::Draft)
        } else if str_eq(value, "active") {
            Ok(TournamentStatus::Active)
        } else if str_eq(value, "finished") {
            Ok(TournamentStatus::Finished)
        } else if str_eq(value, "archived") {
            Ok(TournamentStatus::Archived)
        } else {
            Err(AppError::validation("invalid tournament status"))
        }
    }
}

/// Reading back the text of a `TournamentStatus` gives the same value.
pub proof fn lemma_tournament_status_round_trip(v: TournamentStatus)
    ensures
        tournament_status_from_text(tournament_status_text(v)) == Some(v),
{
    reveal_strlit("draft");
    reveal_strlit("active");
    reveal_strlit("finished");
    reveal_strlit("archived");
    assert("draft"@.len() != "active"@.len());
    assert("draft"@.len() != "finished"@.len());
    assert("draft"@.len() != "archived"@.len());
    assert("active"@.len() != "draft"@.len());
    assert("active"@.len() != "finished"@.len());
    assert("active"@.len() != "archived"@.len());
    assert("finished"@.len() != "draft"@.len());
    assert("finished"@.len() != "active"@.len());
    assert("finished"@[0] != "archived"@[0]);
    assert("archived"@.len() != "draft"@.len());
    assert("archived"@.len() != "active"@.len());
    assert("archived"@[0] != "finished"@[0]);
}

/// Format of a tournament stage.
#[derive(Debug, Clone, Copy, PartialEq, Eq, Structural)]
pub enum StageKind {
    Group,
    Knockout,
}

/// The text form of a `StageKind`.
pub open spec fn stage_kind_text(v: StageKind) -> Seq<char> {
    match v {
        StageKind::Group => "group"@,
        StageKind::Knockout => "knockout"@,
    }
}

/// The `StageKind` written as `s`, if any.
pub open spec fn stage_kind_from_text(s: Seq<char>) -> Option<StageKind> {
    if s == "group"@ {
        Some(StageKind::Group)
    } else if s == "knockout"@ {
        Some(StageKind::Knockout)
    } else {
        None
    }
}

impl StageKind {
    pub fn as_str(&self) -> (r: &'static str)
        ensures
            r@ == stage_kind_text(*self),
    {
        match self {
            StageKind::Group => "group",
            StageKind::Knockout => "knockout",
        }
    }

    /// Reads a `StageKind` from its text form.
    pub fn parse(value: &str) -> (r: Result<StageKind, AppError>)
        ensures
            r matches Ok(v) ==> stage_kind_from_text(value@) == Some(v),
            r is Err <==> stage_kind_from_text(value@) is None,
            r matches Err(e) ==> is_validation(e, "invalid stage kind"@),
    {
        if str_eq(value, "group") {
            Ok(StageKind::Group)
        } else if str_eq(value, "knockout") {
            Ok(StageKind::Knockout)
        } else {
            Err(AppError::validation("invalid stage kind"))
        }
    }
}

/// Reading back the text of a `StageKind` gives the same value.
pub proof fn lemma_stage_kind_round_trip(v: StageKind)
    ensures
        stage_kind_from_text(stage_kind_text(v)) == Some(v),
{
    reveal_strlit("group");
    reveal_strlit("knockout");
    assert("group"@.len() != "knockout"@.len());
    assert("knockout"@.len() != "group"@.len());
}

/// What a notification is about.
#[derive(Debug, Clone, Copy, PartialEq, Eq, Structural)]
pub enum NotificationType {
    NewMatch,
    MatchResult,
    RankingUpdate,
    MemberJoined,
    PredictionReminder,
    Invite,
}

/// The text form of a `NotificationType`.
pub open spec fn notification_type_text(v: NotificationType) -> Seq<char> {
    match v {
        NotificationType::NewMatch => "new_match"@,
        NotificationType::MatchResult => "match_result"@,
        NotificationType::RankingUpdate => "ranking_update"@,
        NotificationType::MemberJoined => "member_joined"@,
        NotificationType::PredictionReminder => "prediction_reminder"@,
        NotificationType::Invite => "invite"@,
    }
}

/// The `NotificationType` written as `s`, if any.
pub open spec fn notification_type_from_text(s: Seq<char>) -> Option<NotificationType> {
    if s == "new_match"@ {
        Some(NotificationType::NewMatch)
    } else if s == "match_result"@ {
        Some(NotificationType::MatchResult)
    } else if s == "ranking_update"@ {
        Some(NotificationType::RankingUpdate)
    } else if s == "member_joined"@ {
        Some(NotificationType::MemberJoined)
    } else if s == "prediction_reminder"@ {
        Some(NotificationType::PredictionReminder)
    } else if s == "invite"@ {
        Some(NotificationType::Invite)
    } else {
        None
    }
}

impl NotificationType {
    pub fn as_str(&self) -> (r: &'static str)
        ensures
            r@ == notification_type_text(*self),
    {
        match self {
            NotificationType::NewMatch => "new_match",
            NotificationType::MatchResult => "match_result",
            NotificationType::RankingUpdate => "ranking_update",
            NotificationType::MemberJoined => "member_joined",
            NotificationType::PredictionReminder => "prediction_reminder",
            NotificationType::Invite => "invite",
        }
    }

    /// Reads a `NotificationType` from its text form.
    pub fn parse(value: &str) -> (r: Result<NotificationType, AppError>)
        ensures
            r matches Ok(v) ==> notification_type_from_text(value@) == Some(v),
            r is Err <==> notification_type_from_text(value@) is None,
            r matches Err(e) ==> is_validation(e, "invalid notification type"@),
    {
        if str_eq(value, "new_match") {
            Ok(NotificationType::NewMatch)
        } else if str_eq(value, "match_result") {
            Ok(NotificationType::MatchResult)
        } else if str_eq(value, "ranking_update") {
            Ok(NotificationType::RankingUpdate)
        } else if str_eq(value, "member_joined") {
            Ok(NotificationType::MemberJoined)
        } else if str_eq(value, "prediction_reminder") {
            Ok(NotificationType::PredictionReminder)
        } else if str_eq(value, "invite") {
            Ok(NotificationType::Invite)
        } else {
            Err(AppError::validation("invalid notification type"))
        }
    }
}

/// Reading back the text of a `NotificationType` gives the same value.
pub proof fn lemma_notification_type_round_trip(v: NotificationType)
    ensures
        notification_type_from_text(notification_type_text(v)) == Some(v),
{
    reveal_strlit("new_match");
    reveal_strlit("match_result");
    reveal_strlit("ranking_update");
    reveal_strlit("member_joined");
    reveal_strlit("prediction_reminder");
    reveal_strlit("invite");
    assert("new_match"@.len() != "match_result"@.len());
    assert("new_match"@.len() != "ranking_update"@.len());
    assert("new_match"@.len() != "member_joined"@.len());
    assert("new_match"@.len() != "prediction_reminder"@.len());
    assert("new_match"@.len() != "invite"@.len());
    assert("match_result"@.len() != "new_match"@.len());
    assert("match_result"@.len() != "ranking_update"@.len());
    assert("match_result"@.len() != "member_joined"@.len());
    assert("match_result"@.len() != "prediction_reminder"@.len());
    assert("match_result"@.len() != "invite"@.len());
    assert("ranking_update"@.len() != "new_match"@.len());
    assert("ranking_update"@.len() != "match_result"@.len());
    assert("ranking_update"@.len() != "member_joined"@.len());
    assert("ranking_update"@.len() != "prediction_reminder"@.len());
    assert("ranking_update"@.len() != "invite"@.len());
    assert("member_joined"@.len() != "new_match"@.len());
    assert("member_joined"@.len() != "match_result"@.len());
    assert("member_joined"@.len() != "ranking_update"@.len());
    assert("member_joined"@.len() != "prediction_reminder"@.len());
    assert("member_joined"@.len() != "invite"@.len());
    assert("prediction_reminder"@.len() != "new_match"@.len());
    assert("prediction_reminder"@.len() != "match_result"@.len());
    assert("prediction_reminder"@.len() != "ranking_update"@.len());
    assert("prediction_reminder"@.len() != "member_joined"@.len());
    assert("prediction_reminder"@.len() != "invite"@.len());
    assert("invite"@.len() != "new_match"@.len());
    assert("invite"@.len() != "match_result"@.len());
    assert("invite"@.len() != "ranking_update"@.len());
    assert("invite"@.len() != "member_joined"@.len());
    assert("invite"@.len() != "prediction_reminder"@.len());
}

/// Where a notification is delivered.
#[derive(Debug, Clone, Copy, PartialEq, Eq, Structural)]
pub enum Channel {
    InApp,
    Push,
}

/// The text form of a `Channel`.
pub open spec fn channel_text(v: Channel) -> Seq<char> {
    match v {
        Channel::InApp => "in_app"@,
        Channel::Push => "push"@,
    }
}

/// The `Channel` written as `s`, if any.
pub open spec fn channel_from_text(s: Seq<char>) -> Option<Channel> {
    if s == "in_app"@ {
        Some(Channel::InApp)
    } else if s == "push"@ {
        Some(Channel::Push)
    } else {
        None
    }
}

impl Channel {
    pub fn as_str(&self) -> (r: &'static str)
        ensures
            r@ == channel_text(*self),
    {
        match self {
            Channel::InApp => "in_app",
            Channel::Push => "push",
        }
    }

    /// Reads a `Channel` from its text form.
    pub fn parse(value: &str) -> (r: Result<Channel, AppError>)
        ensures
            r matches Ok(v) ==> channel_from_text(value@) == Some(v),
            r is Err <==> channel_from_text(value@) is None,
            r matches Err(e) ==> is_validation(e, "invalid notification channel"@),
    {
        if str_eq(value, "in_app") {
            Ok(Channel::InApp)
        } else if str_eq(value, "push") {
            Ok(Channel::Push)
        } else {
            Err(AppError::validation("invalid notification channel"))
        }
    }
}

/// Reading back the text of a `Channel` gives the same value.
pub proof fn lemma_channel_round_trip(v: Channel)
    ensures
        channel_from_text(channel_text(v)) == Some(v),
{
    reveal_strlit("in_app");
    reveal_strlit("push");
    assert("in_app"@.len() != "push"@.len());
    assert("push"@.len() != "in_app"@.len());
}

/// How well a prediction matched the result.
#[derive(Debug, Clone, Copy, PartialEq, Eq, Structural)]
pub enum HitKind {
    Exact,
    Outcome,
    Miss,
}

/// The text form of a `HitKind`.
pub open spec fn hit_kind_text(v: HitKind) -> Seq<char> {
    match v {
        HitKind::Exact => "exact"@,
        HitKind::Outcome => "outcome"@,
        HitKind::Miss => "none"@,
    }
}

/// The `HitKind` written as `s`, if any.
pub open spec fn hit_kind_from_text(s: Seq<char>) -> Option<HitKind> {
    if s == "exact"@ {
        Some(HitKind::Exact)
    } else if s == "outcome"@ {
        Some(HitKind::Outcome)
    } else if s == "none"@ {
        Some(HitKind::Miss)
    } else {
        None
    }
}

impl HitKind {
    pub fn as_str(&self) -> (r: &'static str)
        ensures
            r@ == hit_kind_text(*self),
    {
        match self {
            HitKind::Exact => "exact",
            HitKind::Outcome => "outcome",
            HitKind::Miss => "none",
        }
    }

    /// Reads a `HitKind` from its text form.
    pub fn parse(value: &str) -> (r: Result<HitKind, AppError>)
        ensures
            r matches Ok(v) ==> hit_kind_from_text(value@) == Some(v),
            r is Err <==> hit_kind_from_text(value@) is None,
            r matches Err(e) ==> is_validation(e, "invalid hit kind"@),
    {
        if str_eq(value, "exact") {
            Ok(HitKind::Exact)
        } else if str_eq(value, "outcome") {
            Ok(HitKind::Outcome)
        } else if str_eq(value, "none") {
            Ok(HitKind::Miss)
        } else {
            Err(AppError::validation("invalid hit kind"))
        }
    }
}

/// Reading back the text of a `HitKind` gives the same value.
pub proof fn lemma_hit_kind_round_trip(v: HitKind)
    ensures
        hit_kind_from_text(hit_kind_text(v)) == Some(v),
{
    reveal_strlit("exact");
    reveal_strlit("outcome");
    reveal_strlit("none");
    assert("exact"@.len() != "outcome"@.len());
    assert("exact"@.len() != "none"@.len());
    assert("outcome"@.len() != "exact"@.len());
    assert("outcome"@.len() != "none"@.len());
    assert("none"@.len() != "exact"@.len());
    assert("none"@.len() != "outcome"@.len());
}

/// The side that won a penalty shootout.
#[derive(Debug, Clone, Copy, PartialEq, Eq, Structural)]
pub enum PenaltySide {
    Home,
    Away,
}

/// The text form of a `PenaltySide`.
pub open spec fn penalty_side_text(v: PenaltySide) -> Seq<char> {
    match v {
        PenaltySide::Home => "home"@,
        PenaltySide::Away => "away"@,
    }
}

/// The `PenaltySide` written as `s`, if any.
pub open spec fn penalty_side_from_text(s: Seq<char>) -> Option<PenaltySide> {
    if s == "home"@ {
        Some(PenaltySide::Home)
    } else if s == "away"@ {
        Some(PenaltySide::Away)
    } else {
        None
    }
}

impl PenaltySide {
    pub fn as_str(&self) -> (r: &'static str)
        ensures
            r@ == penalty_side_text(*self),
    {
        match self {
            PenaltySide::Home => "home",
            PenaltySide::Away => "away",
        }
    }

    /// Reads a `PenaltySide` from its text form.
    pub fn parse(value: &str) -> (r: Result<PenaltySide, AppError>)
        ensures
            r matches Ok(v) ==> penalty_side_from_text(value@) == Some(v),
            r is Err <==> penalty_side_from_text(value@) is None,
            r matches Err(e) ==> is_validation(e, "invalid penalty side"@),
    {
        if str_eq(value, "home") {
            Ok(PenaltySide::Home)
        } else if str_eq(value, "away") {
            Ok(PenaltySide::Away)
        } else {
            Err(AppError::validation("invalid penalty side"))
        }
    }
}

/// Reading back the text of a `PenaltySide` gives the same value.
pub proof fn lemma_penalty_side_round_trip(v: PenaltySide)
    ensures
        penalty_side_from_text(penalty_side_text(v)) == Some(v),
{
    reveal_strlit("home");
    reveal_strlit("away");
    assert("home"@[0] != "away"@[0]);
    assert("away"@[0] != "home"@[0]);
}

/// Platform-wide role of a user.
#[derive(Debug, Clone, Copy, PartialEq, Eq, Structural)]
pub enum UserRole {
    User,
    Admin,
}

/// The text form of a `UserRole`.
pub open spec fn user_role_text(v: UserRole) -> Seq<char> {
    match v {
        UserRole::User => "user"@,
        UserRole::Admin => "admin"@,
    }
}

/// The `UserRole` written as `s`, if any.
pub open spec fn user_role_from_text(s: Seq<char>) -> Option<UserRole> {
    if s == "user"@ {
        Some(UserRole::User)
    } else if s == "admin"@ {
        Some(UserRole::Admin)
    } else {
        None
    }
}

impl UserRole {
    pub fn as_str(&self) -> (r: &'static str)
        ensures
            r@ == user_role_text(*self),
    {
        match self {
            UserRole::User => "user",
            UserRole::Admin => "admin",
        }
    }

    /// Reads a `UserRole` from its text form.
    pub fn parse(value: &str) -> (r: Result<UserRole, AppError>)
        ensures
            r matches Ok(v) ==> user_role_from_text(value@) == Some(v),
            r is Err <==> user_role_from_text(value@) is None,
            r matches Err(e) ==> is_validation(e, "invalid user role"@),
    {
        if str_eq(value, "user") {
            Ok(UserRole::User)
        } else if str_eq(value, "admin") {
            Ok(UserRole::Admin)
        } else {
            Err(AppError::validation("invalid user role"))
        }
    }
}

/// Reading back the text of a `UserRole` gives the same value.
pub proof fn lemma_user_role_round_trip(v: UserRole)
    ensures
        user_role_from_text(user_role_text(v)) == Some(v),
{
    reveal_strlit("user");
    reveal_strlit("admin");
    assert("user"@.len() != "admin"@.len());
    assert("admin"@.len() != "user"@.len());
}

} // verus!
