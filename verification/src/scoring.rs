//! How a prediction is scored against a result and how a pool is ranked.

use vstd::prelude::*;

use crate::domain::entities::PoolScoringRule;
use crate::domain::kinds::{HitKind, PenaltySide, ScoringRuleKey};
use crate::domain::values::Score;

verus! {

/// The points a pool gives for each kind of hit.
#[derive(Debug, Clone, Copy, PartialEq, Eq, Structural)]
pub struct ScoringRules {
    pub exact_score: i16,
    pub correct_outcome: i16,
    pub penalties_winner: i16,
}

/// Points configured for `key`: the last rule with that key wins, and a key
/// without any rule gives no points.
pub open spec fn rule_points(rules: Seq<PoolScoringRule>, key: ScoringRuleKey) -> i16
    decreases rules.len(),
{
    if rules.len() == 0 {
        0
    } else if rules.last().rule_key == key {
        rules.last().points
    } else {
        rule_points(rules.drop_last(), key)
    }
}

pub open spec fn rules_from(rules: Seq<PoolScoringRule>) -> ScoringRules {
    ScoringRules {
        exact_score: rule_points(rules, ScoringRuleKey::ExactScore),
        correct_outcome: rule_points(rules, ScoringRuleKey::CorrectOutcome),
        penalties_winner: rule_points(rules, ScoringRuleKey::PenaltiesWinner),
    }
}

pub open spec fn fits_i16(v: int) -> bool {
    i16::MIN <= v <= i16::MAX
}

/// Every base award plus every penalty award stays an `i16`.
pub open spec fn sums_fit(rules: ScoringRules) -> bool {
    &&& fits_i16(rules.exact_score + rules.penalties_winner)
    &&& fits_i16(rules.correct_outcome + rules.penalties_winner)
}

impl ScoringRules {
    pub fn from_rules(rules: &Vec<PoolScoringRule>) -> (r: ScoringRules)
        ensures
            r == rules_from(rules@),
    {
        let mut exact: i16 = 0;
        let mut outcome: i16 = 0;
        let mut penalties: i16 = 0;
        let mut i: usize = 0;
        while i < rules.len()
            invariant
                i <= rules.len(),
                exact == rule_points(rules@.take(i as int), ScoringRuleKey::ExactScore),
                outcome == rule_points(rules@.take(i as int), ScoringRuleKey::CorrectOutcome),
                penalties == rule_points(rules@.take(i as int), ScoringRuleKey::PenaltiesWinner),
            decreases rules.len() - i,
        {
            let rule = &rules[i];
            assert(rules@.take(i + 1).drop_last() =~= rules@.take(i as int));
            match rule.rule_key {
                ScoringRuleKey::ExactScore => exact = rule.points,
                ScoringRuleKey::CorrectOutcome => outcome = rule.points,
                ScoringRuleKey::PenaltiesWinner => penalties = rule.points,
            }
            i = i + 1;
        }
        assert(rules@.take(rules.len() as int) =~= rules@);
        ScoringRules { exact_score: exact, correct_outcome: outcome, penalties_winner: penalties }
    }
}

proof fn lemma_last_rule(rules: Seq<PoolScoringRule>, i: int)
    requires
        0 <= i < rules.len(),
        forall|j: int| i < j < rules.len() ==> (#[trigger] rules[j]).rule_key != rules[i].rule_key,
    ensures
        rule_points(rules, rules[i].rule_key) == rules[i].points,
    decreases rules.len(),
{
    if i < rules.len() - 1 {
        let init = rules.drop_last();
        assert(rules.last() == rules[rules.len() - 1]);
        assert forall|j: int| i < j < init.len() implies (#[trigger] init[j]).rule_key != init[i].rule_key by {
            assert(init[j] == rules[j]);
        }
        lemma_last_rule(init, i);
    }
}

proof fn lemma_no_rule(rules: Seq<PoolScoringRule>, key: ScoringRuleKey)
    requires
        forall|j: int| 0 <= j < rules.len() ==> (#[trigger] rules[j]).rule_key != key,
    ensures
        rule_points(rules, key) == 0,
    decreases rules.len(),
{
    if rules.len() > 0 {
        let init = rules.drop_last();
        assert(rules.last() == rules[rules.len() - 1]);
        assert forall|j: int| 0 <= j < init.len() implies (#[trigger] init[j]).rule_key != key by {
            assert(init[j] == rules[j]);
        }
        lemma_no_rule(init, key);
    }
}

/// The rules a pool's rule list makes: for each key, the points of the last
/// rule with that key.
pub proof fn law_last_rule_of_each_key_wins(rules: Seq<PoolScoringRule>, i: int)
    requires
        0 <= i < rules.len(),
        forall|j: int| i < j < rules.len() ==> (#[trigger] rules[j]).rule_key != rules[i].rule_key,
    ensures
        rules[i].rule_key == ScoringRuleKey::ExactScore ==> rules_from(rules).exact_score == rules[i].points,
        rules[i].rule_key == ScoringRuleKey::CorrectOutcome ==> rules_from(rules).correct_outcome
            == rules[i].points,
        rules[i].rule_key == ScoringRuleKey::PenaltiesWinner ==> rules_from(rules).penalties_winner
            == rules[i].points,
{
    lemma_last_rule(rules, i);
}

/// A key without any rule gives no points.
pub proof fn law_missing_rule_gives_nothing(rules: Seq<PoolScoringRule>, key: ScoringRuleKey)
    requires
        forall|j: int| 0 <= j < rules.len() ==> (#[trigger] rules[j]).rule_key != key,
    ensures
        key == ScoringRuleKey::ExactScore ==> rules_from(rules).exact_score == 0,
        key == ScoringRuleKey::CorrectOutcome ==> rules_from(rules).correct_outcome == 0,
        key == ScoringRuleKey::PenaltiesWinner ==> rules_from(rules).penalties_winner == 0,
{
    lemma_no_rule(rules, key);
}

/// -1, 0 or 1 for a home win, a draw or an away win.
pub open spec fn outcome_of(home: int, away: int) -> int {
    if home > away {
        1
    } else if home == away {
        0
    } else {
        -1
    }
}

/// Base award of a prediction: the exact score, else the right outcome, else nothing.
pub open spec fn base_award(ph: int, pa: int, rh: int, ra: int, rules: ScoringRules) -> (
    int,
    HitKind,
) {
    if ph == rh && pa == ra {
        (rules.exact_score as int, HitKind::Exact)
    } else if outcome_of(ph, pa) == outcome_of(rh, ra) {
        (rules.correct_outcome as int, HitKind::Outcome)
    } else {
        (0, HitKind::Miss)
    }
}

/// Bonus for naming the shootout winner of a match predicted as a draw.
pub open spec fn penalty_award(
    predicted_draw: bool,
    pick: Option<PenaltySide>,
    winner: Option<PenaltySide>,
    rules: ScoringRules,
) -> (int, bool) {
    if predicted_draw && pick is Some && winner is Some && pick == winner {
        (rules.penalties_winner as int, true)
    } else {
        (0, false)
    }
}

/// Scores a predicted score line against the real one.
pub fn score(prediction: (Score, Score), result: (Score, Score), rules: &ScoringRules) -> (r: (
    i16,
    HitKind,
))
    ensures
        (r.0 as int, r.1) == base_award(
            prediction.0.value as int,
            prediction.1.value as int,
            result.0.value as int,
            result.1.value as int,
            *rules,
        ),
{
    let (ph, pa) = (prediction.0.value(), prediction.1.value());
    let (rh, ra) = (result.0.value(), result.1.value());
    if ph == rh && pa == ra {
        return (rules.exact_score, HitKind::Exact);
    }
    let predicted = if ph > pa {
        1i8
    } else if ph == pa {
        0i8
    } else {
        -1i8
    };
    let actual = if rh > ra {
        1i8
    } else if rh == ra {
        0i8
    } else {
        -1i8
    };
    if predicted == actual {
        (rules.correct_outcome, HitKind::Outcome)
    } else {
        (0, HitKind::Miss)
    }
}

/// The shootout bonus and whether the pick was right.
pub fn penalty_bonus(
    predicted_draw: bool,
    pick: Option<PenaltySide>,
    winner: Option<PenaltySide>,
    rules: &ScoringRules,
) -> (r: (i16, bool))
    ensures
        (r.0 as int, r.1) == penalty_award(predicted_draw, pick, winner, *rules),
{
    match (pick, winner) {
        (Some(p), Some(w)) => {
            if predicted_draw && p == w {
                (rules.penalties_winner, true)
            } else {
                (0, false)
            }
        },
        _ => (0, false),
    }
}

/// Total points of a scored prediction: base award plus shootout bonus.
pub open spec fn prediction_points(
    ph: int,
    pa: int,
    rh: int,
    ra: int,
    pick: Option<PenaltySide>,
    winner: Option<PenaltySide>,
    rules: ScoringRules,
) -> int {
    base_award(ph, pa, rh, ra, rules).0 + penalty_award(ph == pa, pick, winner, rules).0
}

/// Points stay an `i16` whenever the rules' sums do.
pub proof fn lemma_points_fit(
    ph: int,
    pa: int,
    rh: int,
    ra: int,
    pick: Option<PenaltySide>,
    winner: Option<PenaltySide>,
    rules: ScoringRules,
)
    requires
        sums_fit(rules),
    ensures
        fits_i16(prediction_points(ph, pa, rh, ra, pick, winner, rules)),
{
}

/// An exact prediction earns the exact-score points and counts as exact.
pub proof fn law_exact_prediction_earns_exact_points(h: int, a: int, rules: ScoringRules)
    ensures
        base_award(h, a, h, a, rules) == (rules.exact_score as int, HitKind::Exact),
{
}

/// A prediction with the right winner (or draw) but another score earns the
/// outcome points; one with the wrong winner earns nothing.
pub proof fn law_outcome_and_miss(ph: int, pa: int, rh: int, ra: int, rules: ScoringRules)
    requires
        !(ph == rh && pa == ra),
    ensures
        outcome_of(ph, pa) == outcome_of(rh, ra) ==> base_award(ph, pa, rh, ra, rules) == (
            rules.correct_outcome as int,
            HitKind::Outcome,
        ),
        outcome_of(ph, pa) != outcome_of(rh, ra) ==> base_award(ph, pa, rh, ra, rules) == (
            0int,
            HitKind::Miss,
        ),
{
}

/// The shootout bonus is only ever given for a predicted draw whose pick
/// matches the real winner.
pub proof fn law_penalty_bonus_needs_draw_and_right_pick(
    predicted_draw: bool,
    pick: Option<PenaltySide>,
    winner: Option<PenaltySide>,
    rules: ScoringRules,
)
    ensures
        penalty_award(predicted_draw, pick, winner, rules).1 <==> (predicted_draw && pick is Some
            && pick == winner),
        !penalty_award(predicted_draw, pick, winner, rules).1 ==> penalty_award(
            predicted_draw,
            pick,
            winner,
            rules,
        ).0 == 0,
{
}

} // verus!
