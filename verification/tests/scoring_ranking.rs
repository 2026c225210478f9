use palpites::domain::kinds::{HitKind, PenaltySide};
use palpites::domain::values::Score;
use palpites::ranking::{compute, ScoredLine};
use palpites::scoring::{penalty_bonus, score, ScoringRules};

fn rules() -> ScoringRules {
    ScoringRules { exact_score: 10, correct_outcome: 5, penalties_winner: 2 }
}

fn s(v: u8) -> Score {
    Score::new(v).unwrap()
}

#[test]
fn exact_prediction_earns_exact_points() {
    assert_eq!(score((s(2), s(1)), (s(2), s(1)), &rules()), (10, HitKind::Exact));
    assert_eq!(score((s(0), s(0)), (s(0), s(0)), &rules()), (10, HitKind::Exact));
}

#[test]
fn right_outcome_earns_outcome_points() {
    assert_eq!(score((s(3), s(0)), (s(1), s(0)), &rules()), (5, HitKind::Outcome));
    assert_eq!(score((s(1), s(1)), (s(2), s(2)), &rules()), (5, HitKind::Outcome));
    assert_eq!(score((s(0), s(2)), (s(1), s(4)), &rules()), (5, HitKind::Outcome));
}

#[test]
fn wrong_outcome_earns_nothing() {
    assert_eq!(score((s(2), s(1)), (s(1), s(2)), &rules()), (0, HitKind::Miss));
    assert_eq!(score((s(1), s(1)), (s(1), s(0)), &rules()), (0, HitKind::Miss));
}

#[test]
fn penalty_bonus_needs_a_drawn_prediction_and_the_right_side() {
    let r = rules();
    assert_eq!(penalty_bonus(true, Some(PenaltySide::Home), Some(PenaltySide::Home), &r), (2, true));
    assert_eq!(penalty_bonus(true, Some(PenaltySide::Home), Some(PenaltySide::Away), &r), (0, false));
    assert_eq!(penalty_bonus(false, Some(PenaltySide::Home), Some(PenaltySide::Home), &r), (0, false));
    assert_eq!(penalty_bonus(true, None, Some(PenaltySide::Home), &r), (0, false));
    assert_eq!(penalty_bonus(true, Some(PenaltySide::Away), None, &r), (0, false));
}

#[test]
fn score_rejects_more_than_ninety_nine_goals() {
    assert!(Score::new(99).is_ok());
    assert!(Score::new(100).is_err());
}

fn line(member: &str, points: i16, hit: HitKind) -> ScoredLine {
    ScoredLine { pool_member_id: member.to_string(), points, hit, penalty_hit: false }
}

#[test]
fn ranking_orders_by_points_then_exact_hits() {
    let members = vec!["a".to_string(), "b".to_string(), "c".to_string(), "d".to_string()];
    let lines = vec![
        line("a", 5, HitKind::Outcome),
        line("a", 5, HitKind::Outcome),
        line("b", 10, HitKind::Exact),
        line("c", 10, HitKind::Exact),
        line("c", 0, HitKind::Miss),
        line("d", 0, HitKind::Miss),
    ];
    let ranked = compute(&members, &lines);
    assert_eq!(ranked.len(), 4);
    // members keep their order; positions follow (points, exact hits)
    assert_eq!(ranked[0].pool_member_id, "a");
    assert_eq!(ranked[0].total_points, 10);
    assert_eq!(ranked[0].exact_count, 0);
    assert_eq!(ranked[0].outcome_count, 2);
    assert_eq!(ranked[0].hits_count, 2);
    assert_eq!(ranked[0].position, 3);
    assert_eq!(ranked[1].position, 1);
    assert_eq!(ranked[2].position, 1);
    assert_eq!(ranked[2].hits_count, 1);
    assert_eq!(ranked[3].total_points, 0);
    assert_eq!(ranked[3].position, 4);
}

#[test]
fn ranking_of_members_without_lines_puts_all_first() {
    let members = vec!["x".to_string(), "y".to_string()];
    let ranked = compute(&members, &vec![]);
    assert_eq!(ranked.len(), 2);
    assert!(ranked.iter().all(|r| r.position == 1 && r.total_points == 0));
}

#[test]
fn ranking_counts_penalty_hits() {
    let members = vec!["a".to_string()];
    let lines = vec![ScoredLine {
        pool_member_id: "a".to_string(),
        points: 7,
        hit: HitKind::Outcome,
        penalty_hit: true,
    }];
    let ranked = compute(&members, &lines);
    assert_eq!(ranked[0].penalties_count, 1);
    assert_eq!(ranked[0].total_points, 7);
}
