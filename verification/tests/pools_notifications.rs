use palpites::domain::entities::{NotificationPreference, Pool, PoolMember};
use palpites::domain::kinds::{Channel, MemberStatus, NotificationType, PoolRole, PoolStatus};
use palpites::error::{AppError, CodedKind};
use palpites::jobs::{
    delivery_of, pool_open_for_reminders, reminder_pools, reminder_throttle_start, reminder_window_end,
    sender_for, Delivery, PoolMembers, RemindedRecipient, ReminderRun, ReminderWindow,
};
use palpites::notifications::{
    active_recipients, copy_for, member_joined_recipients, plan_dispatch, preference_records,
    resolve_enabled, PreferenceInput, Recipient, UpdatePreferences,
};
use palpites::pools::{
    invite_draw, InviteDraw,
    build_pool_seed, check_delete, check_email_allowed, check_leave, join_step, prepare_pool,
    scoring_rule_records, CreatePool, JoinStep, ScoringRuleInput, UpdateScoringRules,
};
use palpites::time::parse_datetime;

fn member(id: &str, user: &str, role: PoolRole, status: MemberStatus) -> PoolMember {
    PoolMember {
        id: id.to_string(),
        pool_id: "p1".to_string(),
        user_id: user.to_string(),
        role,
        status,
        joined_at: "2024-01-01 00:00:00".to_string(),
        left_at: None,
    }
}

fn pool(allowlist: bool) -> Pool {
    Pool {
        id: "p1".to_string(),
        tournament_id: "t1".to_string(),
        owner_user_id: "u1".to_string(),
        name: "Bolão da Firma".to_string(),
        invite_code: "abc123".to_string(),
        join_requires_allowlist: allowlist,
        prediction_lock_offset_minutes: 30,
        status: PoolStatus::Active,
    }
}

fn coded(e: AppError) -> (CodedKind, String, String) {
    match e {
        AppError::Coded { kind, code, message } => (kind, code, message),
        other => panic!("expected a coded error, got {:?}", other),
    }
}

#[test]
fn new_pools_are_checked_and_seeded() {
    let cmd = CreatePool {
        name: "  Bolão  ".to_string(),
        tournament_id: "t1".to_string(),
        join_requires_allowlist: None,
        prediction_lock_offset_minutes: Some(15),
    };
    let draft = prepare_pool(&cmd, Some("active")).unwrap();
    assert_eq!(draft.name, "Bolão");
    assert!(!draft.join_requires_allowlist);
    assert_eq!(draft.prediction_lock_offset_minutes, 15);
    let seed = build_pool_seed("p9", "u1", "t1", draft, "invite42".to_string(), "2024-01-01 00:00:00");
    assert_eq!(seed.pool.status, "active");
    assert_eq!(seed.pool.invite_code, "invite42");
    assert_eq!(seed.scoring_rules.len(), 2);
    assert_eq!((seed.scoring_rules[0].rule_key.as_str(), seed.scoring_rules[0].points), ("exact_score", 10));
    assert_eq!((seed.scoring_rules[1].rule_key.as_str(), seed.scoring_rules[1].points), ("correct_outcome", 5));
    assert_eq!(seed.owner_member.role, "owner");
    assert_eq!(seed.owner_member.status, "active");
    assert_ne!(seed.scoring_rules[0].rule_id, seed.scoring_rules[1].rule_id);

    let (_, code, _) = coded(prepare_pool(&cmd, Some("archived")).unwrap_err());
    assert_eq!(code, "tournament_archived");
    match prepare_pool(&cmd, None) {
        Err(AppError::NotFound(m)) => assert_eq!(m, "tournament was not found"),
        other => panic!("unexpected {:?}", other),
    }
    let blank = CreatePool { name: " ".to_string(), ..cmd };
    match prepare_pool(&blank, Some("active")) {
        Err(AppError::Validation(m)) => assert_eq!(m, "pool.name must not be empty"),
        other => panic!("unexpected {:?}", other),
    }
    let late = CreatePool {
        name: "x".to_string(),
        tournament_id: "t1".to_string(),
        join_requires_allowlist: Some(true),
        prediction_lock_offset_minutes: Some(10081),
    };
    match prepare_pool(&late, Some("active")) {
        Err(AppError::Validation(m)) => assert_eq!(m, "prediction lock offset must be between 0 and 10080 minutes"),
        other => panic!("unexpected {:?}", other),
    }
}

#[test]
fn joining_by_invitation() {
    assert!(matches!(join_step(pool(false), None), JoinStep::Create));
    match join_step(pool(false), Some(member("m1", "u1", PoolRole::Member, MemberStatus::Active))) {
        JoinStep::AlreadyMember(o) => {
            assert!(o.already_member);
            assert_eq!(o.pool.id, "p1");
            assert_eq!(o.member.id, "m1");
        }
        other => panic!("unexpected {:?}", other),
    }
    match join_step(pool(false), Some(member("m7", "u1", PoolRole::Member, MemberStatus::Inactive))) {
        JoinStep::Reactivate(id) => assert_eq!(id, "m7"),
        other => panic!("unexpected {:?}", other),
    }
    assert!(check_email_allowed(&pool(false), None, false).is_ok());
    assert!(check_email_allowed(&pool(true), None, true).is_err());
    let (kind, code, _) = coded(
        check_email_allowed(&pool(true), Some(&palpites_user()), false).unwrap_err(),
    );
    assert_eq!((kind, code.as_str()), (CodedKind::Forbidden, "email_not_allowed"));
    assert!(check_email_allowed(&pool(true), Some(&palpites_user()), true).is_ok());
}

fn palpites_user() -> palpites::domain::entities::User {
    palpites::domain::entities::User {
        id: "u1".to_string(),
        email: "ana@example.com".to_string(),
        password_hash: "x".to_string(),
        display_name: "Ana".to_string(),
        is_active: true,
        role: palpites::domain::kinds::UserRole::User,
        sync_predictions_across_pools: false,
    }
}

#[test]
fn the_last_owner_cannot_leave() {
    let owner = member("m1", "u1", PoolRole::Owner, MemberStatus::Active);
    let (_, code, message) = coded(check_leave(Some(&owner), 1).unwrap_err());
    assert_eq!((code.as_str(), message.as_str()), ("last_owner", "the pool must keep at least one owner"));
    assert_eq!(check_leave(Some(&owner), 2).unwrap(), "m1");
    assert_eq!(check_leave(Some(&member("m2", "u2", PoolRole::Member, MemberStatus::Active)), 1).unwrap(), "m2");
    assert!(check_leave(Some(&member("m2", "u2", PoolRole::Member, MemberStatus::Inactive)), 1).is_err());
    assert!(check_leave(None, 1).is_err());
}

#[test]
fn deleting_needs_the_owner_and_the_pool_name() {
    assert!(check_delete(PoolRole::Owner, Some(&pool(false)), " Bolão da Firma ").is_ok());
    match check_delete(PoolRole::Owner, Some(&pool(false)), "Outro") {
        Err(AppError::Validation(m)) => assert_eq!(m, "o nome informado não corresponde ao nome do bolão"),
        other => panic!("unexpected {:?}", other),
    }
    assert!(matches!(check_delete(PoolRole::Admin, Some(&pool(false)), "Bolão da Firma"), Err(AppError::Forbidden(_))));
    assert!(matches!(check_delete(PoolRole::Owner, None, "x"), Err(AppError::NotFound(_))));
}

#[test]
fn scoring_rule_updates() {
    let cmd = UpdateScoringRules {
        rules: vec![
            ScoringRuleInput { rule_key: "exact_score".to_string(), points: 12 },
            ScoringRuleInput { rule_key: "penalties_winner".to_string(), points: 3 },
        ],
    };
    let records = scoring_rule_records(PoolRole::Owner, &cmd).unwrap();
    assert_eq!(records.len(), 2);
    assert_eq!((records[1].rule_key.as_str(), records[1].points), ("penalties_winner", 3));
    assert!(matches!(scoring_rule_records(PoolRole::Admin, &cmd), Err(AppError::Forbidden(_))));
    let dup = UpdateScoringRules {
        rules: vec![
            ScoringRuleInput { rule_key: "exact_score".to_string(), points: 1 },
            ScoringRuleInput { rule_key: "exact_score".to_string(), points: 2 },
        ],
    };
    let (_, code, _) = coded(scoring_rule_records(PoolRole::Owner, &dup).unwrap_err());
    assert_eq!(code, "duplicate_scoring_rule");
    let bad = UpdateScoringRules { rules: vec![ScoringRuleInput { rule_key: "bonus".to_string(), points: 1 }] };
    assert!(matches!(scoring_rule_records(PoolRole::Owner, &bad), Err(AppError::Validation(_))));
    let big = UpdateScoringRules { rules: vec![ScoringRuleInput { rule_key: "exact_score".to_string(), points: 1001 }] };
    match scoring_rule_records(PoolRole::Owner, &big) {
        Err(AppError::Validation(m)) => assert_eq!(m, "scoring rule points must be between 0 and 1000"),
        other => panic!("unexpected {:?}", other),
    }
}

fn pref(pool: Option<&str>, t: NotificationType, c: Channel, enabled: bool) -> NotificationPreference {
    NotificationPreference {
        id: "x".to_string(),
        user_id: "u".to_string(),
        pool_id: pool.map(|p| p.to_string()),
        notification_type: t,
        channel: c,
        enabled,
    }
}

#[test]
fn pool_preference_wins_over_global_which_wins_over_default() {
    let t = NotificationType::NewMatch;
    let prefs = vec![
        pref(None, t, Channel::Push, false),
        pref(Some("p1"), t, Channel::Push, true),
        pref(None, t, Channel::InApp, false),
    ];
    assert!(resolve_enabled(&prefs, "p1", t, Channel::Push));
    assert!(!resolve_enabled(&prefs, "p2", t, Channel::Push));
    assert!(!resolve_enabled(&prefs, "p1", t, Channel::InApp));
    assert!(resolve_enabled(&prefs, "p1", NotificationType::MatchResult, Channel::Push));
    assert!(resolve_enabled(&vec![], "p1", t, Channel::InApp));
}

#[test]
fn dispatch_reaches_each_user_once_per_channel() {
    let recipients = vec![
        Recipient { user_id: "u1".to_string(), pool_id: "p1".to_string() },
        Recipient { user_id: "u2".to_string(), pool_id: "p1".to_string() },
        Recipient { user_id: "u1".to_string(), pool_id: "p2".to_string() },
    ];
    let prefs = vec![
        vec![],
        vec![pref(None, NotificationType::MatchResult, Channel::Push, false)],
        vec![],
    ];
    let (in_app, push) = plan_dispatch(&recipients, &prefs, NotificationType::MatchResult, Some("g1"));
    let in_app_users: Vec<&str> = in_app.iter().map(|n| n.user_id.as_str()).collect();
    let push_users: Vec<&str> = push.iter().map(|n| n.user_id.as_str()).collect();
    assert_eq!(in_app_users, vec!["u1", "u2"]);
    assert_eq!(push_users, vec!["u1"]);
    let (title, body) = copy_for(NotificationType::MatchResult);
    assert_eq!(title, "Resultado disponível");
    assert_eq!(in_app[0].title, title);
    assert_eq!(in_app[0].body, body);
    assert_eq!(in_app[0].notification_type, "match_result");
    assert_eq!(in_app[0].pool_id, None);
    assert_eq!(in_app[0].related_match_id.as_deref(), Some("g1"));
    assert_eq!(push[0].channel, "push");
}

#[test]
fn preference_updates_refuse_the_invite_type_and_unknown_names() {
    let ok = UpdatePreferences {
        items: vec![PreferenceInput { notification_type: "new_match".to_string(), channel: "push".to_string(), enabled: false }],
    };
    let records = preference_records("u1", Some("p1"), &ok).unwrap();
    assert_eq!(records.len(), 1);
    assert_eq!(records[0].pool_id.as_deref(), Some("p1"));
    assert!(!records[0].enabled);
    let invite = UpdatePreferences {
        items: vec![PreferenceInput { notification_type: "invite".to_string(), channel: "push".to_string(), enabled: true }],
    };
    let (_, code, _) = coded(preference_records("u1", None, &invite).unwrap_err());
    assert_eq!(code, "notification_type_not_preferenceable");
    let unknown = UpdatePreferences {
        items: vec![PreferenceInput { notification_type: "new_match".to_string(), channel: "sms".to_string(), enabled: true }],
    };
    match preference_records("u1", None, &unknown) {
        Err(AppError::Validation(m)) => assert_eq!(m, "invalid notification channel"),
        other => panic!("unexpected {:?}", other),
    }
}

#[test]
fn recipients_of_pool_events() {
    let members = vec![
        member("m1", "u1", PoolRole::Owner, MemberStatus::Active),
        member("m2", "u2", PoolRole::Member, MemberStatus::Active),
        member("m3", "u3", PoolRole::Admin, MemberStatus::Inactive),
        member("m4", "u4", PoolRole::Admin, MemberStatus::Active),
    ];
    let all: Vec<String> = active_recipients("p1", &members).into_iter().map(|r| r.user_id).collect();
    assert_eq!(all, vec!["u1", "u2", "u4"]);
    let watchers: Vec<String> = member_joined_recipients("p1", &members, "u4").into_iter().map(|r| r.user_id).collect();
    assert_eq!(watchers, vec!["u1"]);
}

#[test]
fn reminders_skip_members_who_predicted_or_were_reminded() {
    let members = vec![
        member("m1", "u1", PoolRole::Owner, MemberStatus::Active),
        member("m2", "u2", PoolRole::Member, MemberStatus::Active),
        member("m3", "u3", PoolRole::Member, MemberStatus::Active),
        member("m4", "u4", PoolRole::Member, MemberStatus::Inactive),
    ];
    let predicted = vec!["m2".to_string()];
    let done = vec![RemindedRecipient { user_id: "u3".to_string(), pool_id: "p1".to_string() }];
    let mut run = ReminderRun::start(vec!["u9".to_string()]);
    let p1 = vec![PoolMembers { pool_id: "p1".to_string(), members: members.clone() }];
    let r = run.remind_match(&p1, &predicted, &done);
    let users: Vec<&str> = r.iter().map(|x| x.user_id.as_str()).collect();
    assert_eq!(users, vec!["u1"]);
    assert_eq!(run.created(), 1);
    // within the throttle window a user is reminded once, whatever the pool or match
    let p2 = vec![PoolMembers { pool_id: "p2".to_string(), members: members.clone() }];
    let again = run.remind_match(&p2, &vec![], &vec![]);
    let users: Vec<&str> = again.iter().map(|x| x.user_id.as_str()).collect();
    assert_eq!(users, vec!["u2", "u3"]);
    assert!(again.iter().all(|x| x.pool_id == "p2"));
    assert_eq!(run.created(), 3);
    assert!(run.remind_match(&p2, &vec![], &vec![]).is_empty());
    let twice = vec![
        member("m1", "u5", PoolRole::Member, MemberStatus::Active),
        member("m2", "u5", PoolRole::Member, MemberStatus::Active),
    ];
    let mut fresh = ReminderRun::start(vec![]);
    let both = vec![
        PoolMembers { pool_id: "p3".to_string(), members: twice.clone() },
        PoolMembers { pool_id: "p4".to_string(), members: twice },
    ];
    let r = fresh.remind_match(&both, &vec![], &vec![]);
    assert_eq!(r.len(), 1);
    assert_eq!(r[0].pool_id, "p3");
    let mut skipped = ReminderRun::start(vec!["u1".to_string()]);
    let only_u1 = vec![PoolMembers { pool_id: "p1".to_string(), members: vec![member("m1", "u1", PoolRole::Owner, MemberStatus::Active)] }];
    assert!(skipped.remind_match(&only_u1, &vec![], &vec![]).is_empty());
    assert_eq!(skipped.created(), 0);
    let kickoff = parse_datetime("2024-06-01 18:00:00").unwrap();
    assert!(pool_open_for_reminders(&pool(false), parse_datetime("2024-06-01 17:29:00").unwrap(), kickoff));
    assert!(!pool_open_for_reminders(&pool(false), parse_datetime("2024-06-01 17:30:00").unwrap(), kickoff));
}

#[test]
fn pools_to_remind_about_a_match() {
    let mut closed = pool(false);
    closed.id = "p2".to_string();
    closed.status = PoolStatus::Archived;
    let mut late = pool(false);
    late.id = "p3".to_string();
    late.prediction_lock_offset_minutes = 120;
    let pools = vec![pool(false), closed, late];
    let now = parse_datetime("2024-06-01 17:00:00").unwrap();
    assert_eq!(reminder_pools(&pools, now, "2024-06-01 18:00:00"), vec![0]);
    assert_eq!(reminder_pools(&pools, now, "2024-06-01 20:00:00"), vec![0, 2]);
    assert!(reminder_pools(&pools, now, "not a date").is_empty());
}

#[test]
fn a_failed_send_is_recorded_and_the_run_goes_on() {
    assert!(matches!(delivery_of(&Ok(())), Delivery::Delivered));
    match delivery_of(&Err(AppError::Internal("push service down".to_string()))) {
        Delivery::Failed(m) => assert_eq!(m, "push service down"),
        other => panic!("unexpected {:?}", other),
    }
}

#[test]
fn reminder_window_bounds() {
    let now = parse_datetime("2024-06-01 17:00:00").unwrap();
    let w = ReminderWindow::new(60, 720);
    assert_eq!(reminder_window_end(now, w).as_deref(), Some("2024-06-01 18:00:00"));
    assert_eq!(reminder_throttle_start(now, w).as_deref(), Some("2024-06-01 05:00:00"));
}

#[test]
fn a_queued_message_goes_to_the_first_sender_of_its_channel() {
    let channels = vec![Channel::InApp, Channel::Push, Channel::Push];
    assert_eq!(sender_for(&channels, Channel::Push), Some(1));
    assert_eq!(sender_for(&channels, Channel::InApp), Some(0));
    assert_eq!(sender_for(&vec![Channel::InApp], Channel::Push), None);
}

#[test]
fn rules_are_checked_in_order() {
    let cmd = UpdateScoringRules {
        rules: vec![
            ScoringRuleInput { rule_key: "exact_score".to_string(), points: 2000 },
            ScoringRuleInput { rule_key: "bogus".to_string(), points: 1 },
        ],
    };
    match scoring_rule_records(PoolRole::Owner, &cmd) {
        Err(AppError::Validation(m)) => assert_eq!(m, "scoring rule points must be between 0 and 1000"),
        other => panic!("unexpected {:?}", other),
    }
    let cmd = UpdateScoringRules {
        rules: vec![
            ScoringRuleInput { rule_key: "bogus".to_string(), points: 2000 },
        ],
    };
    match scoring_rule_records(PoolRole::Owner, &cmd) {
        Err(AppError::Validation(m)) => assert_eq!(m, "invalid scoring rule key"),
        other => panic!("unexpected {:?}", other),
    }
    let prefs = UpdatePreferences {
        items: vec![
            PreferenceInput { notification_type: "new_match".to_string(), channel: "fax".to_string(), enabled: true },
            PreferenceInput { notification_type: "nope".to_string(), channel: "push".to_string(), enabled: true },
        ],
    };
    match preference_records("u1", None, &prefs) {
        Err(AppError::Validation(m)) => assert_eq!(m, "invalid notification channel"),
        other => panic!("unexpected {:?}", other),
    }
}

#[test]
fn invitation_codes_are_drawn_at_most_eight_times() {
    assert!(matches!(invite_draw(1, false), InviteDraw::Use));
    assert!(matches!(invite_draw(8, false), InviteDraw::Use));
    assert!(matches!(invite_draw(7, true), InviteDraw::Retry));
    match invite_draw(8, true) {
        InviteDraw::GiveUp(AppError::Internal(m)) => assert_eq!(m, "could not generate a unique invite code"),
        other => panic!("unexpected {:?}", other),
    }
}
