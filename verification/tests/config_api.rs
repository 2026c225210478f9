use palpites::api::audit::{audit_entry, is_json_content_type, is_mutation_method, sanitize_json_body};
use palpites::api::authz::require_admin;
use palpites::api::dto::notifications::{
    device_token_record, PreferenceItemRequest, RegisterDeviceRequest, UpdatePreferencesRequest,
};
use palpites::api::dto::pools::{ScoringRuleInputRequest, UpdateScoringRulesRequest};
use palpites::api::extractors::{bearer_token, pool_member_access, AuthenticatedUser};
use palpites::api::respond::app_error;
use palpites::config::{switch_value, AppConfig, ConfigVars, HostAddr};
use palpites::domain::entities::{PoolMember, User};
use palpites::domain::kinds::{MemberStatus, PoolRole, UserRole};
use palpites::error::{AppError, CodedKind};

fn no_vars() -> ConfigVars {
    ConfigVars {
        http_host: None,
        http_port: None,
        database_url: None,
        jwt_secret: None,
        run_migrations: None,
        files_backend: None,
        files_bucket: None,
        files_local_dir: None,
        files_public_base_url: None,
        files_max_byte_size: None,
        s3_region: None,
        s3_endpoint: None,
        jobs_enabled: None,
        jobs_reminder_interval_seconds: None,
        jobs_reminder_window_minutes: None,
        jobs_dispatch_interval_seconds: None,
        jobs_live_interval_seconds: None,
    }
}

#[test]
fn config_defaults() {
    let c = AppConfig::from_vars(&no_vars());
    assert_eq!(c.host, HostAddr::V4(127, 0, 0, 1));
    assert_eq!(c.port, 3001);
    assert_eq!(c.database_url, None);
    assert_eq!(c.jwt_secret, "development-only-secret");
    assert!(c.run_migrations);
    assert_eq!(c.files_backend, "local");
    assert_eq!(c.files_bucket, "palpites-local");
    assert_eq!(c.files_local_dir, "./storage");
    assert_eq!(c.files_public_base_url, "http://127.0.0.1:3001/files-local");
    assert_eq!(c.files_max_byte_size, 5 * 1024 * 1024);
    assert!(c.jobs_enabled);
    assert_eq!(c.jobs_reminder_interval_seconds, 300);
    assert_eq!(c.jobs_reminder_window_minutes, 60);
    assert_eq!(c.jobs_dispatch_interval_seconds, 60);
    assert_eq!(c.jobs_live_interval_seconds, 60);
}

#[test]
fn config_reads_given_values_and_falls_back_on_unreadable_numbers() {
    let mut vars = no_vars();
    vars.http_port = Some("8080".to_string());
    vars.jwt_secret = Some("s3cret".to_string());
    vars.run_migrations = Some("no".to_string());
    vars.jobs_enabled = Some("yes".to_string());
    vars.files_max_byte_size = Some("oops".to_string());
    vars.jobs_reminder_window_minutes = Some("+15".to_string());
    vars.database_url = Some("mysql://db".to_string());
    vars.s3_region = Some("sa-east-1".to_string());
    let c = AppConfig::from_vars(&vars);
    assert_eq!(c.port, 8080);
    assert_eq!(c.jwt_secret, "s3cret");
    assert!(!c.run_migrations);
    assert!(c.jobs_enabled);
    assert_eq!(c.files_max_byte_size, 5242880);
    assert_eq!(c.jobs_reminder_window_minutes, 15);
    assert_eq!(c.database_url.as_deref(), Some("mysql://db"));
    assert_eq!(c.s3_region.as_deref(), Some("sa-east-1"));

    vars.http_port = Some("70000".to_string());
    assert_eq!(AppConfig::from_vars(&vars).port, 3001);
    vars.http_host = Some(HostAddr::V4(0, 0, 0, 0));
    assert_eq!(AppConfig::from_vars(&vars).host, HostAddr::V4(0, 0, 0, 0));
}

#[test]
fn config_with_a_bad_port_and_some_switches() {
    let mut vars = no_vars();
    vars.http_port = Some("not-a-port".to_string());
    vars.run_migrations = Some("no".to_string());
    vars.jobs_enabled = Some("1".to_string());
    vars.files_max_byte_size = Some("2048".to_string());
    let c = AppConfig::from_vars(&vars);
    assert_eq!(c.port, 3001);
    assert!(!c.run_migrations);
    assert!(c.jobs_enabled);
    assert_eq!(c.files_max_byte_size, 2048);
    assert_eq!(c.host, HostAddr::V4(127, 0, 0, 1));
    assert_eq!(c.jwt_secret, "development-only-secret");
    assert_eq!(c.database_url, None);
}

#[test]
fn switches() {
    assert!(switch_value(None));
    for off in ["0", "false", "FALSE", "no", "NO"] {
        assert!(!switch_value(Some(off)), "{off}");
    }
    for on in ["1", "true", "False", "No", "", "off"] {
        assert!(switch_value(Some(on)), "{on}");
    }
}

#[test]
fn errors_are_answered_with_status_code_and_bare_message() {
    let (status, body) = app_error(&AppError::Validation("pool.name must not be empty".to_string()));
    assert_eq!(status, 422);
    assert_eq!(body.code, "validation_error");
    assert_eq!(body.message, "pool.name must not be empty");
    let (status, body) = app_error(&AppError::Configuration("x".to_string()));
    assert_eq!((status, body.code.as_str(), body.message.as_str()), (503, "configuration_error", "x"));
    assert_eq!(app_error(&AppError::Conflict("x".to_string())).0, 409);
    assert_eq!(app_error(&AppError::Forbidden("x".to_string())).0, 403);
    assert_eq!(app_error(&AppError::NotFound("x".to_string())).1.code, "not_found");
    assert_eq!(app_error(&AppError::Unauthorized("x".to_string())).0, 401);
    let (status, body) = app_error(&AppError::Persistence("db down".to_string()));
    assert_eq!((status, body.code.as_str(), body.message.as_str()), (500, "internal_error", "db down"));
    assert_eq!(app_error(&AppError::Internal("x".to_string())).0, 500);
    let coded = AppError::Coded {
        kind: CodedKind::Conflict,
        code: "match_canceled".to_string(),
        message: "a result cannot be entered for a canceled match".to_string(),
    };
    let (status, body) = app_error(&coded);
    assert_eq!(status, 409);
    assert_eq!(body.code, "match_canceled");
    assert_eq!(body.message, "a result cannot be entered for a canceled match");
    let not_found = AppError::Coded { kind: CodedKind::NotFound, code: "c".to_string(), message: "m".to_string() };
    assert_eq!(app_error(&not_found).0, 404);
    let forbidden = AppError::Coded { kind: CodedKind::Forbidden, code: "c".to_string(), message: "m".to_string() };
    assert_eq!(app_error(&forbidden).0, 403);
    let invalid = AppError::Coded { kind: CodedKind::Validation, code: "c".to_string(), message: "m".to_string() };
    assert_eq!(app_error(&invalid).0, 422);
}

#[test]
fn bearer_tokens() {
    assert_eq!(bearer_token(Some("Bearer abc.def")), Some("abc.def".to_string()));
    assert_eq!(bearer_token(Some("Bearer  abc ")), Some(" abc ".to_string()));
    assert_eq!(bearer_token(Some("Bearer    ")), None);
    assert_eq!(bearer_token(Some("Bearer ")), None);
    assert_eq!(bearer_token(Some("bearer abc")), None);
    assert_eq!(bearer_token(Some("Basic abc")), None);
    assert_eq!(bearer_token(None), None);
}

fn member(status: MemberStatus, role: PoolRole) -> PoolMember {
    PoolMember {
        id: "m1".to_string(),
        pool_id: "p1".to_string(),
        user_id: "u1".to_string(),
        role,
        status,
        joined_at: "2024-01-01 00:00:00".to_string(),
        left_at: None,
    }
}

#[test]
fn pool_routes_need_an_active_membership() {
    let auth = AuthenticatedUser { user_id: "u1".to_string() };
    let ok = pool_member_access(auth.clone(), "p1".to_string(), Some(member(MemberStatus::Active, PoolRole::Admin))).unwrap();
    assert_eq!(ok.user_id, "u1");
    assert_eq!(ok.pool_id, "p1");
    assert_eq!(ok.pool_role, PoolRole::Admin);
    for m in [None, Some(member(MemberStatus::Inactive, PoolRole::Owner))] {
        match pool_member_access(auth.clone(), "p1".to_string(), m) {
            Err(AppError::Forbidden(msg)) => assert_eq!(msg, "you are not a member of this pool"),
            other => panic!("unexpected {:?}", other),
        }
    }
}

fn user(role: UserRole) -> User {
    User {
        id: "u1".to_string(),
        email: "a@b.co".to_string(),
        password_hash: "h".to_string(),
        display_name: "Ana".to_string(),
        is_active: true,
        role,
        sync_predictions_across_pools: false,
    }
}

#[test]
fn only_administrators_pass_the_admin_check() {
    assert!(require_admin(Some(&user(UserRole::Admin))).is_ok());
    match require_admin(Some(&user(UserRole::User))) {
        Err(AppError::Forbidden(m)) => assert_eq!(m, "admin privileges are required"),
        other => panic!("unexpected {:?}", other),
    }
    match require_admin(None) {
        Err(AppError::Unauthorized(m)) => assert_eq!(m, "authenticated user no longer exists"),
        other => panic!("unexpected {:?}", other),
    }
}

#[test]
fn audit_records_successful_mutations_only() {
    for m in ["POST", "PUT", "PATCH", "DELETE"] {
        assert!(is_mutation_method(m));
    }
    assert!(!is_mutation_method("GET"));
    assert!(!is_mutation_method("post"));
    assert!(is_json_content_type(Some("application/json; charset=utf-8")));
    assert!(!is_json_content_type(Some("text/plain")));
    assert!(!is_json_content_type(None));
    let e = audit_entry(Some("u1".to_string()), "POST".to_string(), "/api/v1/teams".to_string(), None, Some("{}".to_string()), 201).unwrap();
    assert_eq!(e.status_code, 201);
    assert_eq!(e.path, "/api/v1/teams");
    assert!(audit_entry(None, "POST".to_string(), "/x".to_string(), None, None, 403).is_none());
    assert!(audit_entry(None, "GET".to_string(), "/x".to_string(), None, None, 200).is_none());
    assert!(audit_entry(None, "DELETE".to_string(), "/x".to_string(), None, None, 299).is_some());
    assert!(audit_entry(None, "DELETE".to_string(), "/x".to_string(), None, None, 300).is_none());
}

#[test]
fn audit_bodies_are_compact_json_or_nothing() {
    assert_eq!(sanitize_json_body(b""), None);
    assert_eq!(sanitize_json_body(b"not json"), None);
    assert_eq!(sanitize_json_body(b"{ \"name\" : \"Copa\",\n \"n\": [1, 2] }"), Some("{\"n\":[1,2],\"name\":\"Copa\"}".to_string()));
    assert_eq!(sanitize_json_body(b" 42 "), Some("42".to_string()));
}

#[test]
fn device_registration() {
    let req = RegisterDeviceRequest { token: "  tok  ".to_string(), platform: None };
    let rec = device_token_record("id1".to_string(), "u1", &req).unwrap();
    assert_eq!(rec.token, "tok");
    assert_eq!(rec.platform, "web");
    assert_eq!(rec.user_id, "u1");
    assert_eq!(rec.id, "id1");
    let req = RegisterDeviceRequest { token: "t".to_string(), platform: Some(" ios ".to_string()) };
    assert_eq!(device_token_record("i".to_string(), "u", &req).unwrap().platform, "ios");
    let req = RegisterDeviceRequest { token: "t".to_string(), platform: Some("   ".to_string()) };
    assert_eq!(device_token_record("i".to_string(), "u", &req).unwrap().platform, "web");
    let req = RegisterDeviceRequest { token: " \t".to_string(), platform: None };
    match device_token_record("i".to_string(), "u", &req) {
        Err(AppError::Coded { kind: CodedKind::Validation, code, message }) => {
            assert_eq!(code, "device_token_required");
            assert_eq!(message, "a device token is required");
        }
        other => panic!("unexpected {:?}", other),
    }
}

#[test]
fn request_lists_become_commands_in_order() {
    let req = UpdatePreferencesRequest {
        preferences: vec![
            PreferenceItemRequest { notification_type: "new_match".to_string(), channel: "push".to_string(), enabled: false },
            PreferenceItemRequest { notification_type: "match_result".to_string(), channel: "in_app".to_string(), enabled: true },
        ],
    };
    let cmd = req.into_command();
    assert_eq!(cmd.items.len(), 2);
    assert_eq!(cmd.items[0].notification_type, "new_match");
    assert!(!cmd.items[0].enabled);
    assert_eq!(cmd.items[1].channel, "in_app");
    let req = UpdateScoringRulesRequest {
        rules: vec![ScoringRuleInputRequest { rule_key: "exact_score".to_string(), points: 12 }],
    };
    let cmd = req.into_command();
    assert_eq!(cmd.rules.len(), 1);
    assert_eq!(cmd.rules[0].rule_key, "exact_score");
    assert_eq!(cmd.rules[0].points, 12);
}
