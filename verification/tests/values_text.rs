use palpites::domain::kinds::{
    Channel, HitKind, MatchStatus, NotificationType, PenaltySide, PoolRole, ScoringRuleKey,
    TournamentStatus, UserRole,
};
use palpites::domain::values::{CalendarDate, DomainId, Email, InviteCode, NonEmptyString, Slug, TeamCode};
use palpites::error::AppError;
use palpites::numbers::{parse_u16, parse_u32, parse_u64};
use palpites::text::{has_char, starts_with, str_eq, str_lt, trim};

fn validation_message(e: AppError) -> String {
    match e {
        AppError::Validation(m) => m,
        other => panic!("expected a validation error, got {:?}", other),
    }
}

#[test]
fn trim_removes_unicode_white_space_on_both_sides() {
    assert_eq!(trim("  bolão \t\n"), "bolão");
    assert_eq!(trim("\u{00a0}x\u{2003}"), "x");
    assert_eq!(trim("   "), "");
    assert_eq!(trim(""), "");
    assert_eq!(trim("a b"), "a b");
}

#[test]
fn text_comparisons() {
    assert!(str_eq("abc", "abc"));
    assert!(!str_eq("abc", "abd"));
    assert!(starts_with("application/json; charset=utf-8", "application/json"));
    assert!(!starts_with("app", "application"));
    assert!(has_char("a@b", '@'));
    assert!(!has_char("ab", '@'));
    assert!(str_lt("2024-01-01", "2024-01-02"));
    assert!(str_lt("abc", "abcd"));
    assert!(!str_lt("b", "a"));
    assert!(!str_lt("a", "a"));
}

#[test]
fn non_empty_string_is_trimmed_or_refused() {
    assert_eq!(NonEmptyString::new("  Copa ".to_string(), "name").unwrap().value, "Copa");
    assert_eq!(
        validation_message(NonEmptyString::new(" \t".to_string(), "pool.name").unwrap_err()),
        "pool.name must not be empty"
    );
}

#[test]
fn email_shape() {
    assert_eq!(Email::new(" ana@example.com ".to_string()).unwrap().value, "ana@example.com");
    for bad in ["ana", "ana@", "@example.com", "ana@example", "a b@example.com", "a@b@c.com", "ana@.com"] {
        assert_eq!(
            validation_message(Email::new(bad.to_string()).unwrap_err()),
            "email must be a valid address",
            "{bad}"
        );
    }
}

#[test]
fn invite_codes_are_six_to_thirty_two_letters_or_digits() {
    assert_eq!(InviteCode::new(" abc123 ").unwrap().value, "abc123");
    assert!(InviteCode::new("abc12").is_err());
    assert!(InviteCode::new(&"a".repeat(32)).is_ok());
    assert!(InviteCode::new(&"a".repeat(33)).is_err());
    assert!(InviteCode::new("abc-123").is_err());
}

#[test]
fn slugs_and_team_codes() {
    assert_eq!(Slug::new("copa-2026".to_string()).unwrap().value, "copa-2026");
    assert!(Slug::new("-copa".to_string()).is_err());
    assert!(Slug::new("copa-".to_string()).is_err());
    assert!(Slug::new("Copa".to_string()).is_err());
    assert!(Slug::new("".to_string()).is_err());
    assert_eq!(TeamCode::new("BRA".to_string()).unwrap().value, "BRA");
    assert!(TeamCode::new("B".to_string()).is_err());
    assert!(TeamCode::new("BRAZIL123".to_string()).is_err());
}

#[test]
fn calendar_dates_must_exist() {
    assert!(CalendarDate::new("2024-02-29".to_string()).is_ok());
    assert!(CalendarDate::new("2023-02-29".to_string()).is_err());
    assert!(CalendarDate::new("1900-02-29".to_string()).is_err());
    assert!(CalendarDate::new("2000-02-29".to_string()).is_ok());
    assert!(CalendarDate::new("2024-04-31".to_string()).is_err());
    assert!(CalendarDate::new("2024-13-01".to_string()).is_err());
    assert!(CalendarDate::new("2024-1-01".to_string()).is_err());
    assert_eq!(
        validation_message(CalendarDate::new("x".to_string()).unwrap_err()),
        "date must be a valid YYYY-MM-DD date"
    );
}

#[test]
fn ids_must_not_be_blank() {
    assert_eq!(DomainId::new(" abc ".to_string()).unwrap().value, "abc");
    assert_eq!(validation_message(DomainId::new("  ".to_string()).unwrap_err()), "id must not be empty");
}

#[test]
fn kinds_read_back_their_own_text() {
    for s in [MatchStatus::Scheduled, MatchStatus::Live, MatchStatus::Finished, MatchStatus::Canceled] {
        assert_eq!(MatchStatus::parse(s.as_str()).unwrap(), s);
    }
    for r in [PoolRole::Owner, PoolRole::Admin, PoolRole::Member] {
        assert_eq!(PoolRole::parse(r.as_str()).unwrap(), r);
    }
    assert_eq!(ScoringRuleKey::parse("penalties_winner").unwrap(), ScoringRuleKey::PenaltiesWinner);
    assert_eq!(TournamentStatus::parse("archived").unwrap(), TournamentStatus::Archived);
    assert_eq!(NotificationType::parse("prediction_reminder").unwrap(), NotificationType::PredictionReminder);
    assert_eq!(Channel::parse("in_app").unwrap(), Channel::InApp);
    assert_eq!(HitKind::Miss.as_str(), "none");
    assert_eq!(PenaltySide::parse("away").unwrap(), PenaltySide::Away);
    assert_eq!(UserRole::parse("admin").unwrap(), UserRole::Admin);
    assert_eq!(validation_message(MatchStatus::parse("Live").unwrap_err()), "invalid match status");
}

#[test]
fn unsigned_numbers_read_as_str_parse_reads_them() {
    assert_eq!(parse_u64("0"), Some(0));
    assert_eq!(parse_u64("+42"), Some(42));
    assert_eq!(parse_u64("18446744073709551615"), Some(u64::MAX));
    assert_eq!(parse_u64("18446744073709551616"), None);
    assert_eq!(parse_u64(""), None);
    assert_eq!(parse_u64("+"), None);
    assert_eq!(parse_u64("-1"), None);
    assert_eq!(parse_u64(" 1"), None);
    assert_eq!(parse_u64("12a"), None);
    assert_eq!(parse_u32("4294967295"), Some(u32::MAX));
    assert_eq!(parse_u32("4294967296"), None);
    assert_eq!(parse_u16("3001"), Some(3001));
    assert_eq!(parse_u16("65536"), None);
    for s in ["", "7", "+7", "007", "99999999999999999999", "x"] {
        assert_eq!(parse_u64(s), s.parse::<u64>().ok(), "{s}");
        assert_eq!(parse_u16(s), s.parse::<u16>().ok(), "{s}");
    }
}
