use vstd::prelude::*;

use crate::domain::entities::{Pool, PoolAllowedEmail, PoolMember, PoolScoringRule};
use crate::domain::kinds::{member_status_text, pool_role_text, pool_status_text, scoring_rule_key_text};
use crate::pools::{
    ChangeMemberRole, CreatePool, JoinOutcome, JoinPool, PoolMemberWithName, ScoringRuleInput,
    UpdatePoolSettings, UpdateScoringRules,
};
use crate::text::clone_opt;

verus! {

#[derive(Debug, Clone)]
pub struct CreatePoolRequest {
    pub name: String,
    pub tournament_id: String,
    pub join_requires_allowlist: Option<bool>,
    pub prediction_lock_offset_minutes: Option<u16>,
}
impl From<CreatePoolRequest> for CreatePool {
    fn from(value: CreatePoolRequest) -> (r: Self) {
        CreatePool {
            name: value.name,
            tournament_id: value.tournament_id,
            join_requires_allowlist: value.join_requires_allowlist,
            prediction_lock_offset_minutes: value.prediction_lock_offset_minutes,
        }
    }
}

impl vstd::std_specs::convert::FromSpecImpl<CreatePoolRequest> for CreatePool {
    open spec fn obeys_from_spec() -> bool {
        true
    }

    open spec fn from_spec(value: CreatePoolRequest) -> Self {
        CreatePool {
            name: value.name,
            tournament_id: value.tournament_id,
            join_requires_allowlist: value.join_requires_allowlist,
            prediction_lock_offset_minutes: value.prediction_lock_offset_minutes,
        }
    }
}
#[derive(Debug, Clone)]
pub struct UpdatePoolRequest {
    pub name: String,
    pub join_requires_allowlist: bool,
    pub prediction_lock_offset_minutes: u16,
    pub status: String,
}
impl From<UpdatePoolRequest> for UpdatePoolSettings {
    fn from(value: UpdatePoolRequest) -> (r: Self) {
        UpdatePoolSettings {
            name: value.name,
            join_requires_allowlist: value.join_requires_allowlist,
            prediction_lock_offset_minutes: value.prediction_lock_offset_minutes,
            status: value.status,
        }
    }
}

impl vstd::std_specs::convert::FromSpecImpl<UpdatePoolRequest> for UpdatePoolSettings {
    open spec fn obeys_from_spec() -> bool {
        true
    }

    open spec fn from_spec(value: UpdatePoolRequest) -> Self {
        UpdatePoolSettings {
            name: value.name,
            join_requires_allowlist: value.join_requires_allowlist,
            prediction_lock_offset_minutes: value.prediction_lock_offset_minutes,
            status: value.status,
        }
    }
}
#[derive(Debug, Clone)]
pub struct AddAllowedEmailRequest {
    pub email: String,
}
#[derive(Debug, Clone)]
pub struct AllowedEmailResponse {
    pub id: String,
    pub email: String,
    pub created_at: String,
}
/// The fields of a `AllowedEmailResponse` taken from a `PoolAllowedEmail`.
pub open spec fn allowedemailresponse_of(r: AllowedEmailResponse, entry: PoolAllowedEmail) -> bool {
    &&& r.id == entry.id
    &&& r.email == entry.email
    &&& r.created_at == entry.created_at
}

impl AllowedEmailResponse {
    pub fn from_entry(entry: &PoolAllowedEmail) -> (r: Self)
        ensures
            allowedemailresponse_of(r, *entry),
    {
        AllowedEmailResponse {
            id: entry.id.clone(),
            email: entry.email.clone(),
            created_at: entry.created_at.clone(),
        }
    }
}
#[derive(Debug, Clone)]
pub struct AllowedEmailsListResponse {
    pub emails: Vec<AllowedEmailResponse>,
}
#[derive(Debug, Clone)]
pub struct DeletePoolRequest {
    pub confirm_name: String,
}
#[derive(Debug, Clone)]
pub struct JoinPoolRequest {
    pub invite_code: String,
}
impl From<JoinPoolRequest> for JoinPool {
    fn from(value: JoinPoolRequest) -> (r: Self) {
        JoinPool {
            invite_code: value.invite_code,
        }
    }
}

impl vstd::std_specs::convert::FromSpecImpl<JoinPoolRequest> for JoinPool {
    open spec fn obeys_from_spec() -> bool {
        true
    }

    open spec fn from_spec(value: JoinPoolRequest) -> Self {
        JoinPool {
            invite_code: value.invite_code,
        }
    }
}
#[derive(Debug, Clone)]
pub struct ChangeMemberRoleRequest {
    pub role: String,
}
impl From<ChangeMemberRoleRequest> for ChangeMemberRole {
    fn from(value: ChangeMemberRoleRequest) -> (r: Self) {
        ChangeMemberRole {
            role: value.role,
        }
    }
}

impl vstd::std_specs::convert::FromSpecImpl<ChangeMemberRoleRequest> for ChangeMemberRole {
    open spec fn obeys_from_spec() -> bool {
        true
    }

    open spec fn from_spec(value: ChangeMemberRoleRequest) -> Self {
        ChangeMemberRole {
            role: value.role,
        }
    }
}
#[derive(Debug, Clone)]
pub struct ScoringRuleInputRequest {
    pub rule_key: String,
    pub points: i16,
}
#[derive(Debug, Clone)]
pub struct UpdateScoringRulesRequest {
    pub rules: Vec<ScoringRuleInputRequest>,
}
impl UpdateScoringRulesRequest {
    /// The update as the use case takes it: one input per requested rule, in order.
    pub fn into_command(&self) -> (r: UpdateScoringRules)
        ensures
            r.rules.len() == self.rules.len(),
            forall|k: int|
                0 <= k < r.rules.len() ==> (#[trigger] r.rules@[k]).rule_key
                    == self.rules@[k].rule_key && r.rules@[k].points == self.rules@[k].points,
    {
        let mut rules: Vec<ScoringRuleInput> = Vec::new();
        let mut i: usize = 0;
        while i < self.rules.len()
            invariant
                i <= self.rules.len(),
                rules.len() == i,
                forall|k: int|
                    0 <= k < i ==> (#[trigger] rules@[k]).rule_key == self.rules@[k].rule_key
                        && rules@[k].points == self.rules@[k].points,
            decreases self.rules.len() - i,
        {
            let rule = &self.rules[i];
            rules.push(ScoringRuleInput { rule_key: rule.rule_key.clone(), points: rule.points });
            i = i + 1;
        }
        UpdateScoringRules { rules }
    }
}

#[derive(Debug, Clone)]
pub struct PoolResponse {
    pub id: String,
    pub tournament_id: String,
    pub owner_user_id: String,
    pub name: String,
    pub invite_code: String,
    pub join_requires_allowlist: bool,
    pub prediction_lock_offset_minutes: u16,
    pub status: String,
}
/// The fields of a `PoolResponse` taken from a `Pool`.
pub open spec fn poolresponse_of(r: PoolResponse, pool: Pool) -> bool {
    &&& r.id == pool.id
    &&& r.tournament_id == pool.tournament_id
    &&& r.owner_user_id == pool.owner_user_id
    &&& r.name == pool.name
    &&& r.invite_code == pool.invite_code
    &&& r.join_requires_allowlist == pool.join_requires_allowlist
    &&& r.prediction_lock_offset_minutes == pool.prediction_lock_offset_minutes
    &&& r.status@ == pool_status_text(pool.status)
}

impl PoolResponse {
    pub fn from_pool(pool: &Pool) -> (r: Self)
        ensures
            poolresponse_of(r, *pool),
    {
        PoolResponse {
            id: pool.id.clone(),
            tournament_id: pool.tournament_id.clone(),
            owner_user_id: pool.owner_user_id.clone(),
            name: pool.name.clone(),
            invite_code: pool.invite_code.clone(),
            join_requires_allowlist: pool.join_requires_allowlist,
            prediction_lock_offset_minutes: pool.prediction_lock_offset_minutes,
            status: String::from_str(pool.status.as_str()),
        }
    }
}
#[derive(Debug, Clone)]
pub struct PoolsListResponse {
    pub pools: Vec<PoolResponse>,
}
#[derive(Debug, Clone)]
pub struct PoolMemberResponse {
    pub id: String,
    pub pool_id: String,
    pub user_id: String,
    pub display_name: String,
    pub role: String,
    pub status: String,
    pub joined_at: String,
    pub left_at: Option<String>,
}
/// The fields of a `PoolMemberResponse` taken from a membership and a display name.
pub open spec fn poolmemberresponse_of(
    r: PoolMemberResponse,
    member: PoolMember,
    display_name: Seq<char>,
) -> bool {
    &&& r.id == member.id
    &&& r.pool_id == member.pool_id
    &&& r.user_id == member.user_id
    &&& r.display_name@ == display_name
    &&& r.role@ == pool_role_text(member.role)
    &&& r.status@ == member_status_text(member.status)
    &&& r.joined_at == member.joined_at
    &&& r.left_at == member.left_at
}

impl PoolMemberResponse {
    /// A membership as answered, with no display name.
    pub fn from_member(member: &PoolMember) -> (r: Self)
        ensures
            poolmemberresponse_of(r, *member, Seq::empty()),
    {
        Self::build(member, String::new())
    }

    /// A membership as answered, with the member's display name.
    pub fn from_member_with_name(value: &PoolMemberWithName) -> (r: Self)
        ensures
            poolmemberresponse_of(r, value.member, value.display_name@),
    {
        Self::build(&value.member, value.display_name.clone())
    }

    /// A membership as answered, with the given display name.
    pub fn build(member: &PoolMember, display_name: String) -> (r: Self)
        ensures
            poolmemberresponse_of(r, *member, display_name@),
    {
        PoolMemberResponse {
            id: member.id.clone(),
            pool_id: member.pool_id.clone(),
            user_id: member.user_id.clone(),
            display_name,
            role: String::from_str(member.role.as_str()),
            status: String::from_str(member.status.as_str()),
            joined_at: member.joined_at.clone(),
            left_at: clone_opt(&member.left_at),
        }
    }
}

#[derive(Debug, Clone)]
pub struct PoolMembersListResponse {
    pub members: Vec<PoolMemberResponse>,
}
#[derive(Debug, Clone)]
pub struct ScoringRuleResponse {
    pub id: String,
    pub pool_id: String,
    pub rule_key: String,
    pub points: i16,
}
/// The fields of a `ScoringRuleResponse` taken from a `PoolScoringRule`.
pub open spec fn scoringruleresponse_of(r: ScoringRuleResponse, rule: PoolScoringRule) -> bool {
    &&& r.id == rule.id
    &&& r.pool_id == rule.pool_id
    &&& r.rule_key@ == scoring_rule_key_text(rule.rule_key)
    &&& r.points == rule.points
}

impl ScoringRuleResponse {
    pub fn from_rule(rule: &PoolScoringRule) -> (r: Self)
        ensures
            scoringruleresponse_of(r, *rule),
    {
        ScoringRuleResponse {
            id: rule.id.clone(),
            pool_id: rule.pool_id.clone(),
            rule_key: String::from_str(rule.rule_key.as_str()),
            points: rule.points,
        }
    }
}
#[derive(Debug, Clone)]
pub struct ScoringRulesListResponse {
    pub rules: Vec<ScoringRuleResponse>,
}
#[derive(Debug, Clone)]
pub struct JoinPoolResponse {
    pub pool: PoolResponse,
    pub member: PoolMemberResponse,
    pub already_member: bool,
}
impl JoinPoolResponse {
    /// The answer to a join: the pool, the membership and whether it existed before.
    pub fn from_outcome(outcome: &JoinOutcome) -> (r: Self)
        ensures
            poolresponse_of(r.pool, outcome.pool),
            poolmemberresponse_of(r.member, outcome.member, Seq::empty()),
            r.already_member == outcome.already_member,
    {
        JoinPoolResponse {
            pool: PoolResponse::from_pool(&outcome.pool),
            member: PoolMemberResponse::from_member(&outcome.member),
            already_member: outcome.already_member,
        }
    }
}


} // verus!
