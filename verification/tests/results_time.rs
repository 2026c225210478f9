use palpites::domain::entities::Match;
use palpites::domain::kinds::{MatchStatus, PenaltySide};
use palpites::error::{AppError, CodedKind};
use palpites::domain::entities::Pool;
use palpites::domain::kinds::PoolStatus;
use palpites::predictions::{check_prediction_target, ensure_open, prediction_record, UpsertPrediction};
use palpites::results::{
    check_result_entry, compute_pool, compute_pool_checked, history_summary, history_summary_checked, is_revealed, member_prediction_views,
    resolve_penalties_winner, EnterResult, Overlay, PredictionLine,
};
use palpites::scoring::ScoringRules;
use palpites::sorting::sort_by_kickoff;
use palpites::time::{parse_datetime, validate_kickoff, Moment};

fn rules() -> ScoringRules {
    ScoringRules { exact_score: 10, correct_outcome: 5, penalties_winner: 3 }
}

fn line(id: &str, member: &str, match_id: &str, kickoff: &str, pred: (u8, u8), status: &str, result: Option<(u8, u8)>) -> PredictionLine {
    PredictionLine {
        prediction_id: id.to_string(),
        pool_member_id: member.to_string(),
        match_id: match_id.to_string(),
        prediction_home: pred.0,
        prediction_away: pred.1,
        prediction_penalties_pick: None,
        match_status: status.to_string(),
        kickoff_at: kickoff.to_string(),
        result_home: result.map(|r| r.0),
        result_away: result.map(|r| r.1),
        result_penalties_winner: None,
    }
}

fn coded(e: AppError) -> (CodedKind, String, String) {
    match e {
        AppError::Coded { kind, code, message } => (kind, code, message),
        other => panic!("expected a coded error, got {:?}", other),
    }
}

#[test]
fn date_times_in_every_accepted_form() {
    let expected = Moment { secs: 1717264800, nanos: 0 };
    for text in [
        "2024-06-01T18:00:00Z",
        "2024-06-01T15:00:00-03:00",
        "2024-06-01T18:00:00",
        "2024-06-01 18:00:00",
        "2024-06-01T18:00",
        "2024-06-01 18:00",
    ] {
        let m = parse_datetime(text).unwrap_or_else(|| panic!("{text}"));
        assert_eq!((m.secs, m.nanos), (expected.secs, expected.nanos), "{text}");
    }
    let m = parse_datetime("2024-06-01 18:00:00.250").unwrap();
    assert_eq!((m.secs, m.nanos), (1717264800, 250_000_000));
    assert!(parse_datetime("yesterday").is_none());
    assert!(parse_datetime("2024-06-01").is_none());
}

#[test]
fn kickoff_must_be_a_date_time() {
    assert_eq!(validate_kickoff(" 2024-06-01 18:00 ".to_string()).unwrap(), "2024-06-01 18:00:00");
    assert!(validate_kickoff("soon".to_string()).is_err());
}

#[test]
fn stable_sort_by_kickoff_keeps_ties_in_order() {
    let lines = vec![
        line("p1", "m", "a", "2024-06-02 10:00:00", (0, 0), "scheduled", None),
        line("p2", "m", "b", "2024-06-01 10:00:00", (0, 0), "scheduled", None),
        line("p3", "m", "c", "2024-06-02 10:00:00", (0, 0), "scheduled", None),
        line("p4", "m", "d", "2024-05-31 10:00:00", (0, 0), "scheduled", None),
    ];
    let sorted = sort_by_kickoff(lines);
    let ids: Vec<&str> = sorted.iter().map(|l| l.prediction_id.as_str()).collect();
    assert_eq!(ids, vec!["p4", "p2", "p1", "p3"]);
}

#[test]
fn history_totals_follow_the_sorted_lines() {
    let lines = vec![
        line("p1", "m1", "a", "2024-06-02 10:00:00", (2, 1), "finished", Some((2, 1))),
        line("p2", "m1", "b", "2024-06-01 10:00:00", (1, 0), "finished", Some((3, 1))),
        line("p3", "m2", "b", "2024-06-01 10:00:00", (1, 0), "finished", Some((3, 1))),
        line("p4", "m1", "c", "2024-06-03 10:00:00", (0, 0), "finished", Some((0, 1))),
        line("p5", "m1", "d", "2024-06-04 10:00:00", (1, 1), "scheduled", None),
    ];
    let h = history_summary("m1".to_string(), &lines, &rules()).unwrap();
    assert_eq!(h.pool_member_id, "m1");
    assert_eq!(h.total_points, 15);
    assert_eq!(h.exact_count, 1);
    assert_eq!(h.outcome_count, 1);
    assert_eq!(h.hits_count, 2);
    assert_eq!(h.errors_count, 1);
    assert_eq!(h.pending_count, 1);
    assert_eq!(h.penalties_count, 0);
    let order: Vec<&str> = h.entries.iter().map(|e| e.match_id.as_str()).collect();
    assert_eq!(order, vec!["b", "a", "c", "d"]);
    assert_eq!(h.entries[0].points_awarded, Some(5));
    assert_eq!(h.entries[0].hit_kind.as_deref(), Some("outcome"));
    assert_eq!(h.entries[1].hit_kind.as_deref(), Some("exact"));
    assert_eq!(h.entries[2].hit_kind.as_deref(), Some("none"));
    assert_eq!(h.entries[3].points_awarded, None);
    assert_eq!(h.entries[3].hit_kind, None);
}

#[test]
fn history_refuses_a_stored_score_over_ninety_nine() {
    let lines = vec![line("p1", "m1", "a", "2024-06-02 10:00:00", (120, 1), "finished", Some((2, 1)))];
    match history_summary("m1".to_string(), &lines, &rules()) {
        Err(AppError::Validation(m)) => assert_eq!(m, "score must be between 0 and 99"),
        other => panic!("unexpected {:?}", other),
    }
}

#[test]
fn shootout_pick_adds_the_penalty_bonus() {
    let mut l = line("p1", "m1", "a", "2024-06-02 10:00:00", (1, 1), "finished", Some((2, 2)));
    l.prediction_penalties_pick = Some(PenaltySide::Away);
    l.result_penalties_winner = Some(PenaltySide::Away);
    let h = history_summary("m1".to_string(), &vec![l], &rules()).unwrap();
    assert_eq!(h.total_points, 8);
    assert_eq!(h.penalties_count, 1);
    assert_eq!(h.entries[0].prediction_penalties_pick.as_deref(), Some("away"));
    assert_eq!(h.entries[0].result_penalties_winner.as_deref(), Some("away"));
}

#[test]
fn recomputing_a_pool_with_a_new_result() {
    let lines = vec![
        line("p1", "m1", "a", "2024-06-01 10:00:00", (2, 0), "scheduled", None),
        line("p2", "m2", "a", "2024-06-01 10:00:00", (1, 0), "scheduled", None),
        line("p3", "m2", "b", "2024-06-02 10:00:00", (1, 1), "finished", Some((1, 1))),
    ];
    let members = vec!["m1".to_string(), "m2".to_string()];
    let overlay = Some(Overlay { match_id: "a".to_string(), home: 2, away: 0, penalties_winner: None });
    let r = compute_pool("pool", &rules(), &lines, &members, &overlay, "2024-06-01 12:00:00").unwrap();
    assert_eq!(r.pool_id, "pool");
    let scored: Vec<(&str, i16)> = r.scored_predictions.iter().map(|s| (s.prediction_id.as_str(), s.points_awarded)).collect();
    assert_eq!(scored, vec![("p1", 10), ("p2", 5), ("p3", 10)]);
    assert!(r.scored_predictions.iter().all(|s| s.scored_at == "2024-06-01 12:00:00"));
    assert_eq!(r.standings.len(), 2);
    assert_eq!(r.standings[0].pool_member_id, "m1");
    assert_eq!(r.standings[0].total_points, 10);
    assert_eq!(r.standings[0].position, 2);
    assert_eq!(r.standings[1].total_points, 15);
    assert_eq!(r.standings[1].position, 1);
    assert_eq!(r.standings[1].exact_count, 1);
    assert_eq!(r.standings[1].outcome_count, 1);
    assert_eq!(r.standings[1].hits_count, 2);
    assert!(r.standings.iter().all(|s| s.pool_id == "pool"));

    let without = compute_pool("pool", &rules(), &lines, &members, &None, "t").unwrap();
    assert_eq!(without.scored_predictions.len(), 1);
    assert_eq!(without.standings[0].total_points, 0);
    assert_eq!(without.standings[1].position, 1);
}

fn game(status: MatchStatus, can_go_to_penalties: bool) -> Match {
    Match {
        id: "g1".to_string(),
        tournament_id: "t1".to_string(),
        stage_id: "s1".to_string(),
        home_team_id: Some("h".to_string()),
        away_team_id: Some("a".to_string()),
        kickoff_at: "2024-06-01 18:00:00".to_string(),
        status,
        home_score: None,
        away_score: None,
        penalties_winner: None,
        can_go_to_penalties,
        finished_at: None,
    }
}

fn entry(home: u8, away: u8, winner: Option<&str>) -> EnterResult {
    EnterResult { home_score: home, away_score: away, penalties_winner: winner.map(|s| s.to_string()) }
}

#[test]
fn a_result_is_entered_once_the_match_was_played() {
    let g = game(MatchStatus::Live, false);
    let ok = check_result_entry("g1", Some(&g), &entry(2, 1, None), "2024-06-01 19:50:00").unwrap();
    assert_eq!((ok.match_id.as_str(), ok.home, ok.away, ok.penalties_winner), ("g1", 2, 1, None));
    let (kind, code, message) = coded(check_result_entry("g1", Some(&g), &entry(2, 1, None), "2024-06-01 19:49:59").unwrap_err());
    assert_eq!(kind, CodedKind::Conflict);
    assert_eq!(code, "result_too_early");
    assert_eq!(message, "a result can only be entered after the match has been played");
}

#[test]
fn result_entry_refusals() {
    let g = game(MatchStatus::Scheduled, false);
    match check_result_entry("g1", Some(&g), &entry(100, 1, None), "2024-06-02 00:00:00") {
        Err(AppError::Validation(m)) => assert_eq!(m, "score must be between 0 and 99"),
        other => panic!("unexpected {:?}", other),
    }
    match check_result_entry("g1", None, &entry(1, 1, None), "2024-06-02 00:00:00") {
        Err(AppError::NotFound(m)) => assert_eq!(m, "match was not found"),
        other => panic!("unexpected {:?}", other),
    }
    let canceled = game(MatchStatus::Canceled, false);
    let (_, code, _) = coded(check_result_entry("g1", Some(&canceled), &entry(1, 1, None), "2024-06-02 00:00:00").unwrap_err());
    assert_eq!(code, "match_canceled");
    match check_result_entry("g1", Some(&g), &entry(1, 1, None), "garbage") {
        Err(AppError::Internal(m)) => assert_eq!(m, "clock produced an invalid date-time"),
        other => panic!("unexpected {:?}", other),
    }
}

#[test]
fn penalty_shootout_winner_rules() {
    let knockout = game(MatchStatus::Live, true);
    let group = game(MatchStatus::Live, false);
    assert_eq!(resolve_penalties_winner(&knockout, 1, 1, Some("home")).unwrap(), Some(PenaltySide::Home));
    assert_eq!(resolve_penalties_winner(&knockout, 2, 1, None).unwrap(), None);
    assert_eq!(resolve_penalties_winner(&group, 1, 1, None).unwrap(), None);
    let (kind, code, _) = coded(resolve_penalties_winner(&knockout, 1, 1, None).unwrap_err());
    assert_eq!((kind, code.as_str()), (CodedKind::Validation, "penalties_winner_required"));
    let (kind, code, _) = coded(resolve_penalties_winner(&group, 1, 1, Some("home")).unwrap_err());
    assert_eq!((kind, code.as_str()), (CodedKind::Conflict, "penalties_not_allowed"));
    let (_, code, message) = coded(resolve_penalties_winner(&knockout, 2, 1, Some("home")).unwrap_err());
    assert_eq!(code, "penalties_winner_requires_draw");
    assert_eq!(message, "a penalty-shootout winner is only valid for a drawn match");
    match resolve_penalties_winner(&knockout, 1, 1, Some("left")) {
        Err(AppError::Validation(m)) => assert_eq!(m, "invalid penalty side"),
        other => panic!("unexpected {:?}", other),
    }
}

#[test]
fn prediction_window() {
    // opens five days before kickoff, closes `lock_offset` minutes before it
    assert!(ensure_open(MatchStatus::Scheduled, "2024-06-01 18:00:00", 10, "2024-06-01 17:49:59").is_ok());
    assert!(ensure_open(MatchStatus::Scheduled, "2024-06-01 18:00:00", 10, "2024-05-27 18:00:01").is_ok());
    let (_, code, message) = coded(ensure_open(MatchStatus::Scheduled, "2024-06-01 18:00:00", 10, "2024-06-01 17:50:00").unwrap_err());
    assert_eq!((code.as_str(), message.as_str()), ("prediction_locked", "predictions for this match are locked"));
    let (_, code, message) = coded(ensure_open(MatchStatus::Scheduled, "2024-06-01 18:00:00", 10, "2024-05-27 18:00:00").unwrap_err());
    assert_eq!((code.as_str(), message.as_str()), ("prediction_not_open_yet", "predictions for this match are not open yet"));
    let (_, code, _) = coded(ensure_open(MatchStatus::Live, "2024-06-01 18:00:00", 0, "2024-05-30 00:00:00").unwrap_err());
    assert_eq!(code, "prediction_locked");
    match ensure_open(MatchStatus::Scheduled, "not a date", 0, "2024-05-30 00:00:00") {
        Err(AppError::Internal(m)) => assert_eq!(m, "match kickoff_at is not a valid date-time"),
        other => panic!("unexpected {:?}", other),
    }
}

#[test]
fn other_members_predictions_show_once_locked() {
    let now = parse_datetime("2024-06-01 17:55:00").unwrap();
    assert!(is_revealed("scheduled", "2024-06-01 18:00:00", 10, now));
    assert!(!is_revealed("scheduled", "2024-06-01 18:10:00", 10, now));
    assert!(is_revealed("finished", "2024-06-09 18:00:00", 10, now));
    assert!(!is_revealed("scheduled", "bad", 10, now));
    let lines = vec![
        line("p1", "m2", "late", "2024-06-01 18:10:00", (1, 0), "scheduled", None),
        line("p2", "m2", "soon", "2024-06-01 18:00:00", (2, 0), "scheduled", None),
        line("p3", "m1", "soon", "2024-06-01 18:00:00", (0, 0), "scheduled", None),
        line("p4", "m2", "done", "2024-05-31 18:00:00", (3, 3), "finished", Some((3, 3))),
    ];
    let views = member_prediction_views("m2", &lines, 10, now);
    let ids: Vec<&str> = views.iter().map(|v| v.match_id.as_str()).collect();
    assert_eq!(ids, vec!["done", "soon"]);
    assert_eq!(views[0].result_home, Some(3));
}

#[test]
fn a_prediction_shows_exactly_when_it_locks() {
    let kickoff = "2024-06-01 18:00:00";
    for now_text in ["2024-05-30 12:00:00", "2024-06-01 17:49:59", "2024-06-01 17:50:00", "2024-06-01 19:00:00"] {
        let now = parse_datetime(now_text).unwrap();
        let locked = match ensure_open(MatchStatus::Scheduled, kickoff, 10, now_text) {
            Err(AppError::Coded { code, .. }) => code == "prediction_locked",
            _ => false,
        };
        assert_eq!(is_revealed("scheduled", kickoff, 10, now), locked, "{now_text}");
    }
}

#[test]
fn recomputed_points_match_the_history() {
    let mut l = line("p1", "m1", "a", "2024-06-01 10:00:00", (1, 1), "finished", Some((0, 0)));
    l.prediction_penalties_pick = Some(PenaltySide::Home);
    l.result_penalties_winner = Some(PenaltySide::Home);
    let lines = vec![l, line("p2", "m1", "b", "2024-06-02 10:00:00", (2, 0), "finished", Some((1, 0)))];
    let pool = compute_pool("pool", &rules(), &lines, &vec!["m1".to_string()], &None, "t").unwrap();
    let history = history_summary("m1".to_string(), &lines, &rules()).unwrap();
    let stored: Vec<i16> = pool.scored_predictions.iter().map(|s| s.points_awarded).collect();
    let shown: Vec<i16> = history.entries.iter().map(|e| e.points_awarded.unwrap()).collect();
    assert_eq!(stored, vec![8, 5]);
    assert_eq!(stored, shown);
    assert_eq!(pool.standings[0].total_points, history.total_points);
    assert_eq!(pool.standings[0].penalties_count, history.penalties_count);
}

#[test]
fn checked_history_and_recompute_agree_with_the_plain_ones() {
    let lines = vec![
        line("p1", "m1", "a", "2024-06-02 10:00:00", (2, 1), "finished", Some((2, 1))),
        line("p2", "m1", "b", "2024-06-01 10:00:00", (1, 0), "finished", Some((3, 1))),
    ];
    let h = history_summary_checked("m1".to_string(), &lines, &rules()).unwrap().unwrap();
    assert_eq!(h.total_points, 15);
    assert_eq!(h.entries[0].match_id, "b");
    let members = vec!["m1".to_string()];
    let r = compute_pool_checked("pool", &rules(), &lines, &members, &None, "t").unwrap().unwrap();
    assert_eq!(r.standings[0].total_points, 15);
    assert_eq!(r.standings[0].position, 1);
}

#[test]
fn recompute_reports_totals_that_overflow_the_standings() {
    let big = ScoringRules { exact_score: 32767, correct_outcome: 1, penalties_winner: 0 };
    let lines: Vec<PredictionLine> = (0..65540)
        .map(|i| line(&format!("p{}", i), "m1", &format!("x{}", i), "2024-06-01 10:00:00", (1, 0), "finished", Some((1, 0))))
        .collect();
    let members = vec!["m1".to_string()];
    assert!(compute_pool_checked("pool", &big, &lines, &members, &None, "t").is_none());
    let few = &lines[..3].to_vec();
    let r = compute_pool_checked("pool", &big, few, &members, &None, "t").unwrap().unwrap();
    assert_eq!(r.standings[0].total_points, 3 * 32767);
}

fn a_pool() -> Pool {
    Pool {
        id: "p1".to_string(),
        tournament_id: "t1".to_string(),
        owner_user_id: "u1".to_string(),
        name: "Bolão".to_string(),
        invite_code: "abc123".to_string(),
        join_requires_allowlist: false,
        prediction_lock_offset_minutes: 0,
        status: PoolStatus::Active,
    }
}

fn guess(home: u8, away: u8, pick: Option<&str>) -> UpsertPrediction {
    UpsertPrediction { home_score: home, away_score: away, penalties_pick: pick.map(|s| s.to_string()) }
}

#[test]
fn a_predicted_draw_of_a_knockout_keeps_its_shootout_pick() {
    let knockout = game(MatchStatus::Scheduled, true);
    let (h, a, pick) = check_prediction_target(&a_pool(), &knockout, &guess(1, 1, Some("away"))).unwrap();
    assert_eq!((h.value(), a.value(), pick), (1, 1, Some(PenaltySide::Away)));
    let record = prediction_record("m1".to_string(), "g1".to_string(), 1, 1, pick);
    assert_eq!(record.penalties_pick, Some(PenaltySide::Away));
    assert_eq!((record.home_score, record.away_score), (1, 1));
    // no pick is needed, and one for a non-draw or a group match is dropped
    assert_eq!(check_prediction_target(&a_pool(), &knockout, &guess(1, 1, None)).unwrap().2, None);
    assert_eq!(check_prediction_target(&a_pool(), &knockout, &guess(2, 1, Some("home"))).unwrap().2, None);
    let group = game(MatchStatus::Scheduled, false);
    assert_eq!(check_prediction_target(&a_pool(), &group, &guess(0, 0, Some("nobody"))).unwrap().2, None);
    // an unreadable pick is dropped, and the prediction is still accepted
    assert_eq!(check_prediction_target(&a_pool(), &knockout, &guess(0, 0, Some("nobody"))).unwrap().2, None);
    match check_prediction_target(&a_pool(), &knockout, &guess(100, 100, Some("nobody"))) {
        Err(AppError::Validation(m)) => assert_eq!(m, "score must be between 0 and 99"),
        other => panic!("unexpected {:?}", other),
    }
}
