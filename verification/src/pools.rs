//! Pools: creation, settings, joining, leaving, members and scoring rules.

use vstd::prelude::*;

use crate::domain::entities::{Pool, PoolMember, PoolScoringRule, User};
use crate::domain::kinds::{
    member_status_text, pool_role_from_text, pool_role_text, pool_status_from_text,
    pool_status_text, scoring_rule_key_from_text, scoring_rule_key_text, MemberStatus, PoolRole,
    PoolStatus, ScoringRuleKey,
};
use crate::domain::policy::role_manages_members;
use crate::domain::values::{email_shape, invite_code_shape, must_not_be_empty, Email, InviteCode, NonEmptyString};
use crate::error::{is_coded, is_forbidden, is_internal, is_not_found, is_validation, AppError, CodedKind};
use crate::ids::{invite_code_candidate, new_id};
use crate::text::{str_eq, trim, trimmed};

verus! {

#[derive(Debug, Clone)]
pub struct CreatePool {
    pub name: String,
    pub tournament_id: String,
    pub join_requires_allowlist: Option<bool>,
    pub prediction_lock_offset_minutes: Option<u16>,
}

#[derive(Debug, Clone)]
pub struct UpdatePoolSettings {
    pub name: String,
    pub join_requires_allowlist: bool,
    pub prediction_lock_offset_minutes: u16,
    pub status: String,
}

#[derive(Debug, Clone)]
pub struct JoinPool {
    pub invite_code: String,
}

#[derive(Debug, Clone)]
pub struct ChangeMemberRole {
    pub role: String,
}

#[derive(Debug, Clone)]
pub struct ScoringRuleInput {
    pub rule_key: String,
    pub points: i16,
}

#[derive(Debug, Clone)]
pub struct UpdateScoringRules {
    pub rules: Vec<ScoringRuleInput>,
}

#[derive(Debug, Clone)]
pub struct PoolDetail {
    pub pool: Pool,
    pub member: PoolMember,
}

#[derive(Debug, Clone)]
pub struct JoinOutcome {
    pub pool: Pool,
    pub member: PoolMember,
    pub already_member: bool,
}

/// The scoring rules of a pool as stored.
#[derive(Debug, Clone)]
pub struct ScoringRules {
    pub rules: Vec<PoolScoringRule>,
}

#[derive(Debug, Clone)]
pub struct PoolMemberWithName {
    pub member: PoolMember,
    pub display_name: String,
}

#[derive(Debug, Clone)]
pub struct NewPoolRecord {
    pub pool_id: String,
    pub tournament_id: String,
    pub owner_user_id: String,
    pub name: String,
    pub invite_code: String,
    pub join_requires_allowlist: bool,
    pub prediction_lock_offset_minutes: u16,
    pub status: String,
}

#[derive(Debug, Clone)]
pub struct UpdatePoolRecord {
    pub pool_id: String,
    pub name: String,
    pub join_requires_allowlist: bool,
    pub prediction_lock_offset_minutes: u16,
    pub status: String,
}

#[derive(Debug, Clone)]
pub struct NewMemberRecord {
    pub member_id: String,
    pub pool_id: String,
    pub user_id: String,
    pub role: String,
    pub status: String,
    pub joined_at: String,
}

#[derive(Debug, Clone)]
pub struct NewScoringRuleRecord {
    pub rule_id: String,
    pub rule_key: String,
    pub points: i16,
}

/// Everything stored when a pool is created.
#[derive(Debug, Clone)]
pub struct CreatePoolSeed {
    pub pool: NewPoolRecord,
    pub scoring_rules: Vec<NewScoringRuleRecord>,
    pub owner_member: NewMemberRecord,
}

#[derive(Debug, Clone)]
pub struct NewAllowedEmailRecord {
    pub id: String,
    pub pool_id: String,
    pub email: String,
    pub added_by_user_id: String,
}

/// Entry point of pool management; holds the repositories and services the
/// caller drives.
pub struct PoolUseCases<P, M, C, N, U, A> {
    pub pools: P,
    pub members: M,
    pub clock: C,
    pub notifier: N,
    pub users: U,
    pub allowlist: A,
}

impl<P, M, C, N, U, A> PoolUseCases<P, M, C, N, U, A> {
    pub fn new(pools: P, members: M, clock: C, notifier: N, users: U, allowlist: A) -> (r: Self)
        ensures
            r.pools == pools,
            r.members == members,
            r.clock == clock,
            r.notifier == notifier,
            r.users == users,
            r.allowlist == allowlist,
    {
        PoolUseCases { pools, members, clock, notifier, users, allowlist }
    }
}

pub struct MembershipUseCases<M, C> {
    pub members: M,
    pub clock: C,
}

impl<M, C> MembershipUseCases<M, C> {
    pub fn new(members: M, clock: C) -> (r: Self)
        ensures
            r.members == members,
            r.clock == clock,
    {
        MembershipUseCases { members, clock }
    }
}

pub struct ScoringRuleUseCases<S> {
    pub scoring_rules: S,
}

impl<S> ScoringRuleUseCases<S> {
    pub fn new(scoring_rules: S) -> (r: Self)
        ensures
            r.scoring_rules == scoring_rules,
    {
        ScoringRuleUseCases { scoring_rules }
    }
}

pub const MAX_LOCK_OFFSET_MINUTES: u16 = 10080;

pub const MAX_RULE_POINTS: i16 = 1000;

pub const MAX_POOL_NAME_CHARS: usize = 140;

/// A pool name: not blank, at most 140 characters once trimmed.
pub fn validate_name(value: String) -> (r: Result<String, AppError>)
    ensures
        trimmed(value@).len() == 0 ==> (r matches Err(e) && is_validation(
            e,
            must_not_be_empty("pool.name"@),
        )),
        trimmed(value@).len() > 140 ==> (r matches Err(e) && is_validation(
            e,
            "pool name must be at most 140 characters"@,
        )),
        0 < trimmed(value@).len() <= 140 ==> (r matches Ok(n) && n@ == trimmed(value@)),
{
    let name = match NonEmptyString::new(value, "pool.name") {
        Ok(n) => n.value,
        Err(e) => return Err(e),
    };
    if name.as_str().unicode_len() > MAX_POOL_NAME_CHARS {
        return Err(AppError::validation("pool name must be at most 140 characters"));
    }
    Ok(name)
}

pub fn validate_lock_offset(value: u16) -> (r: Result<u16, AppError>)
    ensures
        value <= MAX_LOCK_OFFSET_MINUTES ==> r == Ok::<u16, AppError>(value),
        value > MAX_LOCK_OFFSET_MINUTES ==> (r matches Err(e) && is_validation(
            e,
            "prediction lock offset must be between 0 and 10080 minutes"@,
        )),
{
    if value > MAX_LOCK_OFFSET_MINUTES {
        return Err(
            AppError::validation("prediction lock offset must be between 0 and 10080 minutes"),
        );
    }
    Ok(value)
}

pub fn last_owner() -> (e: AppError)
    ensures
        is_coded(e, CodedKind::Conflict, "last_owner"@, "the pool must keep at least one owner"@),
{
    AppError::conflict_code("last_owner", "the pool must keep at least one owner")
}

/// A validated pool before it has an id and an invitation code.
#[derive(Debug, Clone)]
pub struct PoolDraft {
    pub name: String,
    pub join_requires_allowlist: bool,
    pub prediction_lock_offset_minutes: u16,
}

pub open spec fn opt_u16_or(v: Option<u16>, d: u16) -> u16 {
    match v {
        Some(x) => x,
        None => d,
    }
}

/// Checks a new pool against the rules and its tournament's status (`None`
/// when the tournament does not exist), in that order.
pub fn prepare_pool(command: &CreatePool, tournament_status: Option<&str>) -> (r: Result<PoolDraft, AppError>)
    ensures
        ({
            let name = trimmed(command.name@);
            let offset = opt_u16_or(command.prediction_lock_offset_minutes, 0);
            if name.len() == 0 {
                (r matches Err(e) && is_validation(e, must_not_be_empty("pool.name"@)))
            } else if name.len() > 140 {
                (r matches Err(e) && is_validation(e, "pool name must be at most 140 characters"@))
            } else if offset > MAX_LOCK_OFFSET_MINUTES {
                (r matches Err(e) && is_validation(
                    e,
                    "prediction lock offset must be between 0 and 10080 minutes"@,
                ))
            } else {
                match tournament_status {
                    None => (r matches Err(e) && is_not_found(e, "tournament was not found"@)),
                    Some(st) => if st@ == "archived"@ {
                        (r matches Err(e) && is_coded(
                            e,
                            CodedKind::Conflict,
                            "tournament_archived"@,
                            "tournament is archived"@,
                        ))
                    } else {
                        (r matches Ok(d) && d.name@ == name && d.join_requires_allowlist == match command.join_requires_allowlist {
                            Some(b) => b,
                            None => false,
                        } && d.prediction_lock_offset_minutes == offset)
                    },
                }
            }
        }),
{
    let name = match validate_name(command.name.clone()) {
        Ok(n) => n,
        Err(e) => return Err(e),
    };
    let join_requires_allowlist = match command.join_requires_allowlist {
        Some(b) => b,
        None => false,
    };
    let offset = match command.prediction_lock_offset_minutes {
        Some(v) => v,
        None => 0,
    };
    let offset = match validate_lock_offset(offset) {
        Ok(v) => v,
        Err(e) => return Err(e),
    };
    match tournament_status {
        None => Err(AppError::not_found("tournament was not found")),
        Some(st) => {
            if str_eq(st, "archived") {
                Err(AppError::conflict_code("tournament_archived", "tournament is archived"))
            } else {
                Ok(PoolDraft { name, join_requires_allowlist, prediction_lock_offset_minutes: offset })
            }
        },
    }
}

/// A fresh invitation code; the caller retries while it is taken.
pub fn new_invite_code() -> (r: String)
    ensures
        invite_code_shape(r@),
        r@.len() == 10,
{
    let candidate = invite_code_candidate();
    proof {
        crate::text::lemma_first_non_ws(candidate@);
        crate::text::lemma_end_non_ws(candidate@);
        assert(!crate::text::is_ws(candidate@[0]));
        assert(!crate::text::is_ws(candidate@[9]));
        crate::text::lemma_first_non_ws_unique(candidate@, 0);
        crate::text::lemma_end_non_ws_unique(candidate@, 10);
        assert(trimmed(candidate@) =~= candidate@);
    }
    match InviteCode::new(candidate.as_str()) {
        Ok(code) => code.value,
        Err(_) => candidate,
    }
}

/// How many fresh invitation codes are drawn before giving up.
pub const INVITE_CODE_ATTEMPTS: u32 = 8;

/// What to do with a freshly drawn invitation code.
#[derive(Debug, Clone)]
pub enum InviteDraw {
    /// Free: the pool gets it.
    Use,
    /// Taken: draw another one.
    Retry,
    /// Taken, and no attempt is left.
    GiveUp(AppError),
}

/// The step after the `attempt`-th draw (counting from 1) gave a code that
/// is `taken` or free.
pub fn invite_draw(attempt: u32, taken: bool) -> (r: InviteDraw)
    requires
        1 <= attempt <= INVITE_CODE_ATTEMPTS,
    ensures
        !taken ==> r is Use,
        taken && attempt < INVITE_CODE_ATTEMPTS ==> r is Retry,
        taken && attempt == INVITE_CODE_ATTEMPTS ==> (r matches InviteDraw::GiveUp(e) && is_internal(
            e,
            "could not generate a unique invite code"@,
        )),
{
    if !taken {
        InviteDraw::Use
    } else if attempt < INVITE_CODE_ATTEMPTS {
        InviteDraw::Retry
    } else {
        InviteDraw::GiveUp(AppError::internal("could not generate a unique invite code"))
    }
}

/// Points of the two rules every new pool starts with.
pub const DEFAULT_EXACT_SCORE_POINTS: i16 = 10;

pub const DEFAULT_CORRECT_OUTCOME_POINTS: i16 = 5;

/// What is stored for a new pool: the pool itself (active), its default
/// scoring rules and its owner's active membership.
pub fn build_pool_seed(
    pool_id: &str,
    owner_user_id: &str,
    tournament_id: &str,
    draft: PoolDraft,
    invite_code: String,
    now: &str,
) -> (r: CreatePoolSeed)
    ensures
        r.pool.pool_id@ == pool_id@,
        r.pool.tournament_id@ == tournament_id@,
        r.pool.owner_user_id@ == owner_user_id@,
        r.pool.name == draft.name,
        r.pool.invite_code == invite_code,
        r.pool.join_requires_allowlist == draft.join_requires_allowlist,
        r.pool.prediction_lock_offset_minutes == draft.prediction_lock_offset_minutes,
        r.pool.status@ == pool_status_text(PoolStatus::Active),
        r.scoring_rules.len() == 2,
        r.scoring_rules@[0].rule_key@ == scoring_rule_key_text(ScoringRuleKey::ExactScore),
        r.scoring_rules@[0].points == DEFAULT_EXACT_SCORE_POINTS,
        r.scoring_rules@[1].rule_key@ == scoring_rule_key_text(ScoringRuleKey::CorrectOutcome),
        r.scoring_rules@[1].points == DEFAULT_CORRECT_OUTCOME_POINTS,
        r.owner_member.pool_id@ == pool_id@,
        r.owner_member.user_id@ == owner_user_id@,
        r.owner_member.role@ == pool_role_text(PoolRole::Owner),
        r.owner_member.status@ == member_status_text(MemberStatus::Active),
        r.owner_member.joined_at@ == now@,
{
    let mut rules: Vec<NewScoringRuleRecord> = Vec::new();
    rules.push(
        NewScoringRuleRecord {
            rule_id: new_id(),
            rule_key: String::from_str(ScoringRuleKey::ExactScore.as_str()),
            points: DEFAULT_EXACT_SCORE_POINTS,
        },
    );
    rules.push(
        NewScoringRuleRecord {
            rule_id: new_id(),
            rule_key: String::from_str(ScoringRuleKey::CorrectOutcome.as_str()),
            points: DEFAULT_CORRECT_OUTCOME_POINTS,
        },
    );
    CreatePoolSeed {
        pool: NewPoolRecord {
            pool_id: String::from_str(pool_id),
            tournament_id: String::from_str(tournament_id),
            owner_user_id: String::from_str(owner_user_id),
            name: draft.name,
            invite_code,
            join_requires_allowlist: draft.join_requires_allowlist,
            prediction_lock_offset_minutes: draft.prediction_lock_offset_minutes,
            status: String::from_str(PoolStatus::Active.as_str()),
        },
        scoring_rules: rules,
        owner_member: new_member_record(
            new_id(),
            pool_id,
            owner_user_id,
            PoolRole::Owner,
            now,
        ),
    }
}

/// An active membership record.
pub fn new_member_record(member_id: String, pool_id: &str, user_id: &str, role: PoolRole, now: &str) -> (r: NewMemberRecord)
    ensures
        r.member_id == member_id,
        r.pool_id@ == pool_id@,
        r.user_id@ == user_id@,
        r.role@ == pool_role_text(role),
        r.status@ == member_status_text(MemberStatus::Active),
        r.joined_at@ == now@,
{
    NewMemberRecord {
        member_id,
        pool_id: String::from_str(pool_id),
        user_id: String::from_str(user_id),
        role: String::from_str(role.as_str()),
        status: String::from_str(MemberStatus::Active.as_str()),
        joined_at: String::from_str(now),
    }
}

/// Checks a settings update: the actor's role, that the pool exists, the
/// name, the status and the lock offset, in that order.
pub fn prepare_pool_update(
    pool_id: &str,
    actor: PoolRole,
    pool_exists: bool,
    command: &UpdatePoolSettings,
) -> (r: Result<UpdatePoolRecord, AppError>)
    ensures
        !role_manages_members(actor) ==> (r matches Err(e) && is_forbidden(
            e,
            "only an owner or admin can update pool settings"@,
        )),
        role_manages_members(actor) && !pool_exists ==> (r matches Err(e) && is_not_found(
            e,
            "pool was not found"@,
        )),
        role_manages_members(actor) && pool_exists ==> {
            let name = trimmed(command.name@);
            if name.len() == 0 {
                (r matches Err(e) && is_validation(e, must_not_be_empty("pool.name"@)))
            } else if name.len() > 140 {
                (r matches Err(e) && is_validation(e, "pool name must be at most 140 characters"@))
            } else if pool_status_from_text(command.status@) is None {
                (r matches Err(e) && is_validation(e, "invalid pool status"@))
            } else if command.prediction_lock_offset_minutes > MAX_LOCK_OFFSET_MINUTES {
                (r matches Err(e) && is_validation(
                    e,
                    "prediction lock offset must be between 0 and 10080 minutes"@,
                ))
            } else {
                (r matches Ok(rec) && rec.pool_id@ == pool_id@ && rec.name@ == name
                    && rec.join_requires_allowlist == command.join_requires_allowlist
                    && rec.prediction_lock_offset_minutes == command.prediction_lock_offset_minutes
                    && rec.status@ == command.status@)
            }
        },
{
    if !actor.can_manage_members() {
        return Err(AppError::forbidden("only an owner or admin can update pool settings"));
    }
    if !pool_exists {
        return Err(AppError::not_found("pool was not found"));
    }
    let name = match validate_name(command.name.clone()) {
        Ok(n) => n,
        Err(e) => return Err(e),
    };
    let status = match PoolStatus::parse(command.status.as_str()) {
        Ok(s) => s,
        Err(e) => return Err(e),
    };
    let offset = match validate_lock_offset(command.prediction_lock_offset_minutes) {
        Ok(v) => v,
        Err(e) => return Err(e),
    };
    proof {
        crate::domain::kinds::lemma_pool_status_round_trip(status);
    }
    Ok(
        UpdatePoolRecord {
            pool_id: String::from_str(pool_id),
            name,
            join_requires_allowlist: command.join_requires_allowlist,
            prediction_lock_offset_minutes: offset,
            status: String::from_str(status.as_str()),
        },
    )
}

/// What joining a pool by invitation does with the caller's membership.
#[derive(Debug, Clone)]
pub enum JoinStep {
    /// Already an active member: nothing changes, and this is the outcome.
    AlreadyMember(JoinOutcome),
    /// A former member: the membership with this id is reactivated.
    Reactivate(String),
    /// A newcomer: a membership is created.
    Create,
}

pub open spec fn join_step_of(pool: Pool, membership: Option<PoolMember>) -> JoinStep {
    match membership {
        None => JoinStep::Create,
        Some(m) => if m.status == MemberStatus::Active {
            JoinStep::AlreadyMember(JoinOutcome { pool, member: m, already_member: true })
        } else {
            JoinStep::Reactivate(m.id)
        },
    }
}

/// The step of a join into `pool`, by the caller's membership there.
pub fn join_step(pool: Pool, membership: Option<PoolMember>) -> (r: JoinStep)
    ensures
        r == join_step_of(pool, membership),
{
    match membership {
        None => JoinStep::Create,
        Some(m) => {
            if m.status == MemberStatus::Active {
                JoinStep::AlreadyMember(JoinOutcome { pool, member: m, already_member: true })
            } else {
                JoinStep::Reactivate(m.id)
            }
        },
    }
}

/// Joining twice is joining once: while the membership a join gave is
/// active, joining again finds the caller already a member, of the same pool
/// and as the same member, and nothing is created, reactivated or announced.
pub proof fn law_second_join_is_a_no_op(first: JoinOutcome)
    requires
        first.member.status == MemberStatus::Active,
    ensures
        join_step_of(first.pool, Some(first.member)) == JoinStep::AlreadyMember(
            JoinOutcome { pool: first.pool, member: first.member, already_member: true },
        ),
{
}

/// A pool found by invitation code.
pub fn pool_for_invite(found: Option<Pool>) -> (r: Result<Pool, AppError>)
    ensures
        found is Some ==> r == Ok::<Pool, AppError>(found->0),
        found is None ==> (r matches Err(e) && is_not_found(e, "invite code was not found"@)),
{
    match found {
        Some(p) => Ok(p),
        None => Err(AppError::not_found("invite code was not found")),
    }
}

/// Joining a pool that requires an allowlist needs the user to exist and
/// their address to be on the list (`allowed`, asked only for such pools).
pub fn check_email_allowed(pool: &Pool, user: Option<&User>, allowed: bool) -> (r: Result<(), AppError>)
    ensures
        !pool.join_requires_allowlist ==> r is Ok,
        pool.join_requires_allowlist && user is None ==> (r matches Err(e) && is_not_found(
            e,
            "user was not found"@,
        )),
        pool.join_requires_allowlist && user is Some ==> (allowed ==> r is Ok) && (!allowed ==> (
        r matches Err(e) && is_coded(
            e,
            CodedKind::Forbidden,
            "email_not_allowed"@,
            "seu e-mail não está autorizado a entrar neste bolão"@,
        ))),
{
    if !pool.join_requires_allowlist {
        return Ok(());
    }
    if user.is_none() {
        return Err(AppError::not_found("user was not found"));
    }
    if allowed {
        Ok(())
    } else {
        Err(
            AppError::forbidden_code(
                "email_not_allowed",
                "seu e-mail não está autorizado a entrar neste bolão",
            ),
        )
    }
}

/// Leaving: the caller must be an active member, and an owner may only leave
/// while another active owner remains (`active_owners` counts them).
pub fn check_leave(membership: Option<&PoolMember>, active_owners: u64) -> (r: Result<String, AppError>)
    ensures
        match membership {
            Some(m) => if m.status != MemberStatus::Active {
                (r matches Err(e) && is_forbidden(e, "you are not a member of this pool"@))
            } else if m.role == PoolRole::Owner && active_owners <= 1 {
                (r matches Err(e) && is_coded(
                    e,
                    CodedKind::Conflict,
                    "last_owner"@,
                    "the pool must keep at least one owner"@,
                ))
            } else {
                (r matches Ok(id) && id == m.id)
            },
            None => (r matches Err(e) && is_forbidden(e, "you are not a member of this pool"@)),
        },
{
    let member = match membership {
        Some(m) => {
            if m.status != MemberStatus::Active {
                return Err(AppError::forbidden("you are not a member of this pool"));
            }
            m
        },
        None => return Err(AppError::forbidden("you are not a member of this pool")),
    };
    if member.role == PoolRole::Owner && active_owners <= 1 {
        return Err(last_owner());
    }
    Ok(member.id.clone())
}

/// Deleting: only the owner, of an existing pool, confirming its name.
pub fn check_delete(actor: PoolRole, pool: Option<&Pool>, confirm_name: &str) -> (r: Result<(), AppError>)
    ensures
        actor != PoolRole::Owner ==> (r matches Err(e) && is_forbidden(
            e,
            "only the owner can delete a pool"@,
        )),
        actor == PoolRole::Owner && pool is None ==> (r matches Err(e) && is_not_found(
            e,
            "pool was not found"@,
        )),
        actor == PoolRole::Owner ==> match pool {
            None => true,
            Some(p) => if trimmed(p.name@) == trimmed(confirm_name@) {
                r is Ok
            } else {
                (r matches Err(e) && is_validation(
                    e,
                    "o nome informado não corresponde ao nome do bolão"@,
                ))
            },
        },
{
    if !actor.is_owner() {
        return Err(AppError::forbidden("only the owner can delete a pool"));
    }
    let pool = match pool {
        Some(p) => p,
        None => return Err(AppError::not_found("pool was not found")),
    };
    let a = trim(pool.name.as_str());
    let b = trim(confirm_name);
    if !str_eq(a.as_str(), b.as_str()) {
        return Err(AppError::validation("o nome informado não corresponde ao nome do bolão"));
    }
    Ok(())
}

/// Only owners and admins manage a pool's allowlist.
pub fn ensure_allowlist_manager(actor: PoolRole) -> (r: Result<(), AppError>)
    ensures
        role_manages_members(actor) ==> r is Ok,
        !role_manages_members(actor) ==> (r matches Err(e) && is_forbidden(
            e,
            "only an owner or admin can manage the allowlist"@,
        )),
{
    if !actor.can_manage_members() {
        return Err(AppError::forbidden("only an owner or admin can manage the allowlist"));
    }
    Ok(())
}

/// A new allowlist entry, for a manager and a valid address.
pub fn allowed_email_record(pool_id: &str, actor: PoolRole, added_by_user_id: &str, email: String) -> (r: Result<NewAllowedEmailRecord, AppError>)
    ensures
        !role_manages_members(actor) ==> (r matches Err(e) && is_forbidden(
            e,
            "only an owner or admin can manage the allowlist"@,
        )),
        role_manages_members(actor) && !email_shape(trimmed(email@)) ==> (r matches Err(e)
            && is_validation(e, "email must be a valid address"@)),
        role_manages_members(actor) && email_shape(trimmed(email@)) ==> (r matches Ok(rec)
            && rec.pool_id@ == pool_id@ && rec.email@ == trimmed(email@) && rec.added_by_user_id@
            == added_by_user_id@),
{
    if let Err(e) = ensure_allowlist_manager(actor) {
        return Err(e);
    }
    let email = match Email::new(email) {
        Ok(e) => e,
        Err(e) => return Err(e),
    };
    Ok(
        NewAllowedEmailRecord {
            id: new_id(),
            pool_id: String::from_str(pool_id),
            email: email.value,
            added_by_user_id: String::from_str(added_by_user_id),
        },
    )
}

/// An allowlist entry to remove must exist and belong to the pool.
pub fn check_allowed_email_in_pool(entry_pool_id: Option<&str>, pool_id: &str) -> (r: Result<(), AppError>)
    ensures
        (entry_pool_id matches Some(p) && p@ == pool_id@) ==> r is Ok,
        !(entry_pool_id matches Some(p) && p@ == pool_id@) ==> (r matches Err(e) && is_not_found(
            e,
            "allowed email was not found"@,
        )),
{
    match entry_pool_id {
        Some(p) => {
            if str_eq(p, pool_id) {
                Ok(())
            } else {
                Err(AppError::not_found("allowed email was not found"))
            }
        },
        None => Err(AppError::not_found("allowed email was not found")),
    }
}

/// Removing a member: only owners and admins, and never an owner.
pub fn check_remove_member(actor: PoolRole, member: &PoolMember) -> (r: Result<(), AppError>)
    ensures
        !role_manages_members(actor) ==> (r matches Err(e) && is_forbidden(
            e,
            "only an owner or admin can remove members"@,
        )),
        role_manages_members(actor) && member.role == PoolRole::Owner ==> (r matches Err(e)
            && is_coded(
            e,
            CodedKind::Conflict,
            "cannot_remove_owner"@,
            "the pool owner cannot be removed"@,
        )),
        role_manages_members(actor) && member.role != PoolRole::Owner ==> r is Ok,
{
    if !actor.can_manage_members() {
        return Err(AppError::forbidden("only an owner or admin can remove members"));
    }
    if member.role == PoolRole::Owner {
        return Err(
            AppError::conflict_code("cannot_remove_owner", "the pool owner cannot be removed"),
        );
    }
    Ok(())
}

/// Only the owner changes roles.
pub fn check_role_changer(actor: PoolRole) -> (r: Result<(), AppError>)
    ensures
        actor == PoolRole::Owner ==> r is Ok,
        actor != PoolRole::Owner ==> (r matches Err(e) && is_forbidden(
            e,
            "only the owner can change member roles"@,
        )),
{
    if !actor.is_owner() {
        return Err(AppError::forbidden("only the owner can change member roles"));
    }
    Ok(())
}

/// A role change may not demote the last active owner.
pub fn check_role_change(member: &PoolMember, role: PoolRole, active_owners: u64) -> (r: Result<(), AppError>)
    ensures
        member.role == PoolRole::Owner && role != PoolRole::Owner && active_owners <= 1 ==> (r matches Err(e) && is_coded(
            e,
            CodedKind::Conflict,
            "last_owner"@,
            "the pool must keep at least one owner"@,
        )),
        !(member.role == PoolRole::Owner && role != PoolRole::Owner && active_owners <= 1) ==> r is Ok,
{
    if member.role == PoolRole::Owner && role != PoolRole::Owner && active_owners <= 1 {
        return Err(last_owner());
    }
    Ok(())
}

/// Keys of the first `n` inputs, as parsed.
pub open spec fn parsed_keys(inputs: Seq<ScoringRuleInput>, n: int) -> Seq<ScoringRuleKey>
    decreases n,
{
    if n <= 0 {
        Seq::empty()
    } else {
        parsed_keys(inputs, n - 1).push(scoring_rule_key_from_text(inputs[n - 1].rule_key@)->0)
    }
}

/// The records that replace a pool's scoring rules; only the owner may do it.
/// What is wrong with one rule of an update, given the rules before it.
#[derive(Debug, Clone, Copy, PartialEq, Eq, Structural)]
pub enum RuleProblem {
    UnknownKey,
    DuplicateKey,
    PointsOutOfRange,
}

/// The problem of the `i`-th rule of an update, if any: an unknown key, a key
/// that an earlier rule already set, or points outside 0 to 1000.
pub open spec fn rule_problem(inputs: Seq<ScoringRuleInput>, i: int) -> Option<RuleProblem> {
    match scoring_rule_key_from_text(inputs[i].rule_key@) {
        None => Some(RuleProblem::UnknownKey),
        Some(k) => if exists|j: int|
            0 <= j < i && scoring_rule_key_from_text(#[trigger] inputs[j].rule_key@) == Some(k) {
            Some(RuleProblem::DuplicateKey)
        } else if !(0 <= inputs[i].points <= MAX_RULE_POINTS) {
            Some(RuleProblem::PointsOutOfRange)
        } else {
            None
        },
    }
}

/// The first problem among the first `n` rules of an update.
pub open spec fn first_rule_problem(inputs: Seq<ScoringRuleInput>, n: int) -> Option<RuleProblem>
    decreases n,
{
    if n <= 0 {
        None
    } else {
        match first_rule_problem(inputs, n - 1) {
            Some(p) => Some(p),
            None => rule_problem(inputs, n - 1),
        }
    }
}

/// The error that reports a problem of a rules update.
pub open spec fn rule_problem_error(e: AppError, p: RuleProblem) -> bool {
    match p {
        RuleProblem::UnknownKey => is_validation(e, "invalid scoring rule key"@),
        RuleProblem::DuplicateKey => is_coded(
            e,
            CodedKind::Conflict,
            "duplicate_scoring_rule"@,
            "scoring rule keys must be unique per pool"@,
        ),
        RuleProblem::PointsOutOfRange => is_validation(e, "scoring rule points must be between 0 and 1000"@),
    }
}

proof fn lemma_first_problem_stays(inputs: Seq<ScoringRuleInput>, m: int, n: int)
    requires
        0 <= m <= n,
        first_rule_problem(inputs, m) is Some,
    ensures
        first_rule_problem(inputs, n) == first_rule_problem(inputs, m),
    decreases n - m,
{
    if n > m {
        lemma_first_problem_stays(inputs, m, n - 1);
    }
}

/// The records of a rules update by the pool's owner: each rule checked in
/// order, the first problem refusing the whole update.
pub fn scoring_rule_records(actor: PoolRole, command: &UpdateScoringRules) -> (r: Result<Vec<NewScoringRuleRecord>, AppError>)
    ensures
        actor != PoolRole::Owner ==> (r matches Err(e) && is_forbidden(
            e,
            "only the owner can update scoring rules"@,
        )),
        actor == PoolRole::Owner ==> match first_rule_problem(command.rules@, command.rules.len() as int) {
            Some(p) => (r matches Err(e) && rule_problem_error(e, p)),
            None => r is Ok,
        },
        r matches Ok(v) ==> v.len() == command.rules.len() && forall|k: int|
            0 <= k < v.len() ==> (#[trigger] v@[k]).rule_key@ == command.rules@[k].rule_key@
                && v@[k].points == command.rules@[k].points,
{
    if !actor.is_owner() {
        return Err(AppError::forbidden("only the owner can update scoring rules"));
    }
    let inputs = &command.rules;
    let mut seen: Vec<ScoringRuleKey> = Vec::new();
    let mut records: Vec<NewScoringRuleRecord> = Vec::new();
    let mut i: usize = 0;
    while i < inputs.len()
        invariant
            i <= inputs.len(),
            actor == PoolRole::Owner,
            inputs@ == command.rules@,
            first_rule_problem(inputs@, i as int) is None,
            forall|k: int, l: int|
                0 <= k < l < i ==> scoring_rule_key_from_text(#[trigger] inputs@[k].rule_key@)
                    != scoring_rule_key_from_text(#[trigger] inputs@[l].rule_key@),
            seen.len() == i,
            forall|k: int|
                0 <= k < i ==> Some(#[trigger] seen@[k]) == scoring_rule_key_from_text(
                    inputs@[k].rule_key@,
                ),
            records.len() == i,
            forall|k: int|
                0 <= k < i ==> (#[trigger] records@[k]).rule_key@ == inputs@[k].rule_key@
                    && records@[k].points == inputs@[k].points,
        decreases inputs.len() - i,
    {
        let input = &inputs[i];
        let key = match ScoringRuleKey::parse(input.rule_key.as_str()) {
            Ok(k) => k,
            Err(e) => {
                proof {
                    assert(first_rule_problem(inputs@, i + 1) == Some(RuleProblem::UnknownKey));
                    lemma_first_problem_stays(inputs@, i + 1, inputs.len() as int);
                }
                return Err(e);
            },
        };
        let mut j: usize = 0;
        while j < seen.len()
            invariant
                j <= seen.len(),
                actor == PoolRole::Owner,
                seen.len() == i,
                i < inputs.len(),
                inputs@ == command.rules@,
                Some(key) == scoring_rule_key_from_text(inputs@[i as int].rule_key@),
                first_rule_problem(inputs@, i as int) is None,
                forall|k: int|
                    0 <= k < i ==> Some(#[trigger] seen@[k]) == scoring_rule_key_from_text(
                        inputs@[k].rule_key@,
                    ),
                forall|l: int| 0 <= l < j ==> seen@[l] != key,
            decreases seen.len() - j,
        {
            if seen[j] == key {
                proof {
                    assert(scoring_rule_key_from_text(inputs@[j as int].rule_key@) == Some(key));
                    assert(rule_problem(inputs@, i as int) == Some(RuleProblem::DuplicateKey));
                    assert(first_rule_problem(inputs@, i + 1) == Some(RuleProblem::DuplicateKey));
                    lemma_first_problem_stays(inputs@, i + 1, inputs.len() as int);
                }
                return Err(
                    AppError::conflict_code(
                        "duplicate_scoring_rule",
                        "scoring rule keys must be unique per pool",
                    ),
                );
            }
            j = j + 1;
        }
        proof {
            assert forall|k: int, l: int|
                0 <= k < l < i + 1 implies scoring_rule_key_from_text(
                #[trigger] inputs@[k].rule_key@,
            ) != scoring_rule_key_from_text(#[trigger] inputs@[l].rule_key@) by {
                if l == i {
                    assert(Some(seen@[k]) == scoring_rule_key_from_text(inputs@[k].rule_key@));
                }
            }
        }
        seen.push(key);
        proof {
            if exists|j: int|
                0 <= j < i && scoring_rule_key_from_text(#[trigger] inputs@[j].rule_key@) == Some(key) {
                let j = choose|j: int|
                    0 <= j < i && scoring_rule_key_from_text(#[trigger] inputs@[j].rule_key@) == Some(key);
                assert(Some(seen@[j]) == scoring_rule_key_from_text(inputs@[j].rule_key@));
            }
        }
        if !(0 <= input.points && input.points <= MAX_RULE_POINTS) {
            proof {
                assert(rule_problem(inputs@, i as int) == Some(RuleProblem::PointsOutOfRange));
                assert(first_rule_problem(inputs@, i + 1) == Some(RuleProblem::PointsOutOfRange));
                lemma_first_problem_stays(inputs@, i + 1, inputs.len() as int);
            }
            return Err(AppError::validation("scoring rule points must be between 0 and 1000"));
        }
        proof {
            crate::domain::kinds::lemma_scoring_rule_key_round_trip(key);
        }
        records.push(
            NewScoringRuleRecord {
                rule_id: new_id(),
                rule_key: String::from_str(key.as_str()),
                points: input.points,
            },
        );
        i = i + 1;
    }
    Ok(records)
}

} // verus!
