use palpites::auth::{
    check_email_free, check_login_user, password_verdict, validate_registration, AuthUseCases, LoginCommand,
    PasswordHasher, RegisterCommand, TokenIssuer,
};
use palpites::domain::entities::{Team, TournamentGroup, User};
use palpites::domain::kinds::{StageKind, TournamentStatus, UserRole};
use palpites::error::{AppError, CodedKind};
use palpites::files::{file_part, hex_sha256, is_allowed_content_type, missing_file, prepare_upload, UploadFile};
use palpites::ids::invite_code_candidate;
use palpites::matches::resolve_match_fields;
use palpites::teams::{check_code_free, prepare_team, validate_flag_emoji};
use palpites::tournaments::{
    check_assignment, check_transition, prepare_stage, prepare_tournament, validate_date_range,
};

fn coded(e: AppError) -> (CodedKind, String, String) {
    match e {
        AppError::Coded { kind, code, message } => (kind, code, message),
        other => panic!("expected a coded error, got {:?}", other),
    }
}

fn validation(e: AppError) -> String {
    match e {
        AppError::Validation(m) => m,
        other => panic!("expected a validation error, got {:?}", other),
    }
}

#[test]
fn sha256_checksums_are_lowercase_hex() {
    assert_eq!(hex_sha256(b"abc"), "ba7816bf8f01cfea414140de5dae2223b00361a396177a9cb410ff61f20015ad");
    assert_eq!(hex_sha256(b""), "e3b0c44298fc1c149afbf4c8996fb92427ae41e4649b934ca495991b7852b855");
}

fn upload(content_type: &str, name: &str, bytes: &[u8]) -> UploadFile {
    UploadFile {
        owner_user_id: Some("u1".to_string()),
        content_type: content_type.to_string(),
        original_name: name.to_string(),
        bytes: bytes.to_vec(),
    }
}

#[test]
fn uploads_are_checked_and_recorded_with_their_checksum() {
    let rec = prepare_upload("f1".to_string(), &upload(" image/png ", " flag.png ", b"abc"), "bucket".to_string(), 10).unwrap();
    assert_eq!(rec.file_id, "f1");
    assert_eq!(rec.object_key, "f1");
    assert_eq!(rec.content_type, "image/png");
    assert_eq!(rec.original_name, "flag.png");
    assert_eq!(rec.byte_size, 3);
    assert_eq!(rec.bucket, "bucket");
    assert_eq!(rec.checksum_sha256.as_deref(), Some("ba7816bf8f01cfea414140de5dae2223b00361a396177a9cb410ff61f20015ad"));
    let (_, code, _) = coded(prepare_upload("f".to_string(), &upload("text/plain", "a", b"x"), "b".to_string(), 10).unwrap_err());
    assert_eq!(code, "unsupported_content_type");
    assert_eq!(validation(prepare_upload("f".to_string(), &upload(" ", "a", b"x"), "b".to_string(), 10).unwrap_err()), "file.content_type must not be empty");
    assert!(prepare_upload("f".to_string(), &upload("image/gif", "a", b""), "b".to_string(), 10).is_err());
    assert!(prepare_upload("f".to_string(), &upload("image/gif", "a", b"12345678901"), "b".to_string(), 10).is_err());
    assert!(prepare_upload("f".to_string(), &upload("image/gif", "  ", b"1"), "b".to_string(), 10).is_err());
    assert!(is_allowed_content_type("image/svg+xml"));
    assert!(!is_allowed_content_type("image/PNG"));
}

#[test]
fn multipart_file_parts() {
    assert_eq!(file_part(Some("a.png"), Some("image/png")), Some(("a.png".to_string(), "image/png".to_string())));
    assert_eq!(file_part(Some("a.bin"), None), Some(("a.bin".to_string(), "application/octet-stream".to_string())));
    assert_eq!(file_part(None, Some("text/plain")), None);
    let (_, code, _) = coded(missing_file());
    assert_eq!(code, "missing_file");
}

#[test]
fn invitation_code_candidates_are_ten_alphanumerics() {
    let a = invite_code_candidate();
    let b = invite_code_candidate();
    assert_eq!(a.chars().count(), 10);
    assert!(a.chars().all(|c| c.is_ascii_alphanumeric()));
    assert_ne!(a, b);
}

#[test]
fn match_fields() {
    let m = resolve_match_fields(" s1 ".to_string(), Some(" h ".to_string()), None, "2024-06-01T15:00:00-03:00".to_string()).unwrap();
    assert_eq!(m.stage_id, "s1");
    assert_eq!(m.home_team_id.as_deref(), Some("h"));
    assert_eq!(m.away_team_id, None);
    assert_eq!(m.kickoff_at, "2024-06-01 18:00:00");
    let (_, code, _) = coded(resolve_match_fields("s1".to_string(), Some("t".to_string()), Some(" t".to_string()), "2024-06-01 18:00".to_string()).unwrap_err());
    assert_eq!(code, "match_same_team");
    assert_eq!(validation(resolve_match_fields(" ".to_string(), None, None, "2024-06-01 18:00".to_string()).unwrap_err()), "match.stage_id is required");
}

fn team(id: &str) -> Team {
    Team { id: id.to_string(), name: "Brasil".to_string(), code: "BRA".to_string(), flag_emoji: None, flag_file_id: None }
}

#[test]
fn teams() {
    let f = prepare_team(" Brasil ".to_string(), " BRA ".to_string(), Some("🇧🇷".to_string())).unwrap();
    assert_eq!((f.name.as_str(), f.code.as_str(), f.flag_emoji.as_deref()), ("Brasil", "BRA", Some("🇧🇷")));
    assert!(prepare_team("x".repeat(121), "BRA".to_string(), None).is_err());
    assert_eq!(validate_flag_emoji(None).unwrap(), None);
    assert_eq!(validation(validate_flag_emoji(Some("x".repeat(17))).unwrap_err()), "team flag emoji must be at most 16 characters");
    assert!(check_code_free(None, None).is_ok());
    assert!(check_code_free(Some(&team("t1")), Some("t1")).is_ok());
    let (_, code, _) = coded(check_code_free(Some(&team("t1")), Some("t2")).unwrap_err());
    assert_eq!(code, "team_code_taken");
    assert!(check_code_free(Some(&team("t1")), None).is_err());
}

#[test]
fn tournaments() {
    let f = prepare_tournament(" Copa ".to_string(), "copa-2026".to_string(), Some("2026-06-11".to_string()), Some("2026-07-19".to_string())).unwrap();
    assert_eq!((f.name.as_str(), f.slug.as_str()), ("Copa", "copa-2026"));
    assert!(prepare_tournament("Copa".to_string(), "copa".to_string(), Some("2026-07-19".to_string()), Some("2026-06-11".to_string())).is_err());
    assert_eq!(validation(validate_date_range(Some("2026-07-19"), Some("2026-06-11")).unwrap_err()), "ends_on must be on or after starts_on");
    assert!(validate_date_range(Some("2026-06-11"), None).is_ok());
    assert_eq!(check_transition(TournamentStatus::Draft, "active").unwrap(), TournamentStatus::Active);
    assert_eq!(check_transition(TournamentStatus::Active, "finished").unwrap(), TournamentStatus::Finished);
    assert_eq!(check_transition(TournamentStatus::Finished, "archived").unwrap(), TournamentStatus::Archived);
    assert_eq!(check_transition(TournamentStatus::Active, "active").unwrap(), TournamentStatus::Active);
    let (_, code, _) = coded(check_transition(TournamentStatus::Finished, "draft").unwrap_err());
    assert_eq!(code, "invalid_status_transition");
    assert!(check_transition(TournamentStatus::Archived, "active").is_err());
    assert_eq!(validation(check_transition(TournamentStatus::Draft, "paused").unwrap_err()), "invalid tournament status");
    assert_eq!(prepare_stage(" Oitavas ".to_string(), "knockout").unwrap(), ("Oitavas".to_string(), StageKind::Knockout));
    assert!(prepare_stage("Fase".to_string(), "league").is_err());
    let g = TournamentGroup { id: "g1".to_string(), tournament_id: "t2".to_string(), label: "A".to_string() };
    let (_, code, _) = coded(check_assignment("t1", true, Some(Some(&g)), false).unwrap_err());
    assert_eq!(code, "group_tournament_mismatch");
    assert!(matches!(check_assignment("t1", false, None, false), Err(AppError::NotFound(_))));
    let (_, code, _) = coded(check_assignment("t2", true, Some(Some(&g)), true).unwrap_err());
    assert_eq!(code, "team_already_assigned");
    assert!(check_assignment("t2", true, None, false).is_ok());
}

fn user(active: bool) -> User {
    User {
        id: "u1".to_string(),
        email: "ana@example.com".to_string(),
        password_hash: "h".to_string(),
        display_name: "Ana".to_string(),
        is_active: active,
        role: UserRole::User,
        sync_predictions_across_pools: false,
    }
}

#[test]
fn sign_in_and_sign_up_rules() {
    assert!(check_login_user(Some(&user(true))).is_ok());
    assert!(matches!(check_login_user(Some(&user(false))), Err(AppError::Unauthorized(m)) if m == "inactive user"));
    assert!(matches!(check_login_user(None), Err(AppError::Unauthorized(m)) if m == "invalid credentials"));
    assert!(password_verdict(Ok(true)).is_ok());
    assert!(matches!(password_verdict(Ok(false)), Err(AppError::Unauthorized(m)) if m == "invalid credentials"));
    assert!(matches!(password_verdict(Err(AppError::Internal("hash".to_string()))), Err(AppError::Internal(m)) if m == "hash"));
    let ok = validate_registration(&RegisterCommand {
        display_name: " Ana ".to_string(),
        email: " ana@example.com ".to_string(),
        password: "senha123".to_string(),
    })
    .unwrap();
    assert_eq!((ok.display_name.as_str(), ok.email.as_str()), ("Ana", "ana@example.com"));
    let short = RegisterCommand { display_name: "Ana".to_string(), email: "ana@example.com".to_string(), password: "a1".to_string() };
    assert_eq!(validation(validate_registration(&short).unwrap_err()), "password must be between 8 and 128 characters");
    let no_digit = RegisterCommand { display_name: "Ana".to_string(), email: "ana@example.com".to_string(), password: "senhasenha".to_string() };
    assert_eq!(validation(validate_registration(&no_digit).unwrap_err()), "password must contain at least one letter and one number");
    let accented = RegisterCommand { display_name: "Ana".to_string(), email: "ana@example.com".to_string(), password: "çãé12345".to_string() };
    assert!(validate_registration(&accented).is_ok());
    assert!(check_email_free(false).is_ok());
    assert!(matches!(check_email_free(true), Err(AppError::Conflict(m)) if m == "email is already registered"));
}

#[test]
fn the_first_problem_is_reported() {
    // team: name, then code, then flag
    assert_eq!(validation(prepare_team(" ".to_string(), "B".to_string(), Some("".to_string())).unwrap_err()), "team.name must not be empty");
    assert_eq!(validation(prepare_team("Brasil".to_string(), "B".to_string(), Some("".to_string())).unwrap_err()), "team code must be 2 to 8 letters or digits");
    assert_eq!(validation(prepare_team("Brasil".to_string(), "BR".to_string(), Some(" ".to_string())).unwrap_err()), "team.flag_emoji must not be empty");
    // tournament: name, slug, dates, range
    assert_eq!(validation(prepare_tournament("x".repeat(141), "-".to_string(), None, None).unwrap_err()), "tournament name must be at most 140 characters");
    assert_eq!(validation(prepare_tournament("Copa".to_string(), "Copa".to_string(), Some("x".to_string()), None).unwrap_err()), "slug must be 1 to 80 lowercase letters, digits or inner dashes");
    assert_eq!(validation(prepare_tournament("Copa".to_string(), "copa".to_string(), None, Some("2026-02-30".to_string())).unwrap_err()), "date must be a valid YYYY-MM-DD date");
    let f = prepare_tournament("Copa".to_string(), "copa".to_string(), Some("  ".to_string()), Some("2026-02-28".to_string())).unwrap();
    assert_eq!((f.starts_on, f.ends_on.as_deref()), (None, Some("2026-02-28")));
    // stage: name, then kind
    assert_eq!(validation(prepare_stage("x".repeat(61), "league".to_string().as_str()).unwrap_err()), "stage name must be at most 60 characters");
    assert_eq!(validation(prepare_stage("Final".to_string(), "league").unwrap_err()), "invalid stage kind");
}

struct PlainHasher;

impl PasswordHasher for PlainHasher {
    fn hash_password(&self, password: &str) -> Result<String, AppError> {
        Ok(format!("h:{}", password))
    }

    fn verify_password(&self, password: &str, password_hash: &str) -> Result<bool, AppError> {
        if password_hash == "broken" {
            return Err(AppError::Internal("hash store unavailable".to_string()));
        }
        Ok(password_hash == format!("h:{}", password))
    }
}

struct Issuer {
    fail: bool,
}

impl TokenIssuer for Issuer {
    fn issue_access_token(&self, user_id: &str) -> Result<String, AppError> {
        if self.fail {
            Err(AppError::Internal("cannot sign".to_string()))
        } else {
            Ok(format!("token-for-{}", user_id))
        }
    }
}

#[test]
fn sign_in_checks_the_password_then_issues_a_token() {
    let mut u = user(true);
    u.password_hash = "h:segredo123".to_string();
    let uc = AuthUseCases::new((), PlainHasher, Issuer { fail: false });
    let login = |password: &str| LoginCommand { email: u.email.clone(), password: password.to_string() };
    let s = uc.login_user(Some(&u), &login("segredo123")).unwrap();
    assert_eq!(s.access_token, format!("token-for-{}", u.id));
    assert_eq!(s.user_id, u.id);
    assert_eq!(s.display_name, u.display_name);
    assert!(matches!(uc.login_user(Some(&u), &login("errado123")), Err(AppError::Unauthorized(m)) if m == "invalid credentials"));
    assert!(matches!(uc.login_user(None, &login("segredo123")), Err(AppError::Unauthorized(m)) if m == "invalid credentials"));
    let failing = AuthUseCases::new((), PlainHasher, Issuer { fail: true });
    assert!(matches!(failing.login_user(Some(&u), &login("segredo123")), Err(AppError::Internal(m)) if m == "cannot sign"));
    let mut broken = u.clone();
    broken.password_hash = "broken".to_string();
    assert!(matches!(uc.login_user(Some(&broken), &login("segredo123")), Err(AppError::Internal(m)) if m == "hash store unavailable"));
}
