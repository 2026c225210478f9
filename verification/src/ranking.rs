//! Standings of a pool: per-member totals and competition-style positions.

use vstd::prelude::*;

use crate::domain::kinds::HitKind;

verus! {

/// One scored prediction, attributed to the member who made it.
#[derive(Debug, Clone)]
pub struct ScoredLine {
    pub pool_member_id: String,
    pub points: i16,
    pub hit: HitKind,
    pub penalty_hit: bool,
}

/// A member's totals and place in the pool.
#[derive(Debug, Clone)]
pub struct RankedStanding {
    pub pool_member_id: String,
    pub total_points: i32,
    pub exact_count: i32,
    pub outcome_count: i32,
    pub hits_count: i32,
    pub penalties_count: i32,
    pub position: i32,
}

/// Sum of the points of `id`'s lines.
pub open spec fn member_points(lines: Seq<ScoredLine>, id: Seq<char>) -> int
    decreases lines.len(),
{
    if lines.len() == 0 {
        0
    } else {
        member_points(lines.drop_last(), id) + if lines.last().pool_member_id@ == id {
            lines.last().points as int
        } else {
            0
        }
    }
}

/// Number of `id`'s lines with hit kind `kind`.
pub open spec fn member_hits(lines: Seq<ScoredLine>, id: Seq<char>, kind: HitKind) -> int
    decreases lines.len(),
{
    if lines.len() == 0 {
        0
    } else {
        member_hits(lines.drop_last(), id, kind) + if lines.last().pool_member_id@ == id
            && lines.last().hit == kind {
            1int
        } else {
            0
        }
    }
}

/// Number of `id`'s lines whose shootout pick was right.
pub open spec fn member_penalty_hits(lines: Seq<ScoredLine>, id: Seq<char>) -> int
    decreases lines.len(),
{
    if lines.len() == 0 {
        0
    } else {
        member_penalty_hits(lines.drop_last(), id) + if lines.last().pool_member_id@ == id
            && lines.last().penalty_hit {
            1int
        } else {
            0
        }
    }
}

/// A member's shootout hits count every scored line of theirs with a right
/// shootout pick, whatever kind of hit the line is: adding a line adds one
/// exactly when it is the member's and its pick was right. No line, no hit.
pub proof fn law_every_shootout_hit_counts(lines: Seq<ScoredLine>, line: ScoredLine, id: Seq<char>)
    ensures
        member_penalty_hits(Seq::empty(), id) == 0,
        line.pool_member_id@ == id && line.penalty_hit ==> member_penalty_hits(lines.push(line), id)
            == member_penalty_hits(lines, id) + 1,
        !(line.pool_member_id@ == id && line.penalty_hit) ==> member_penalty_hits(lines.push(line), id)
            == member_penalty_hits(lines, id),
{
    assert(lines.push(line).drop_last() =~= lines);
}

/// Members are ranked by total points, then by exact hits.
pub open spec fn rank_key(lines: Seq<ScoredLine>, id: Seq<char>) -> (int, int) {
    (member_points(lines, id), member_hits(lines, id, HitKind::Exact))
}

pub open spec fn better(a: (int, int), b: (int, int)) -> bool {
    a.0 > b.0 || (a.0 == b.0 && a.1 > b.1)
}

/// How many of `keys` rank strictly above `key`.
pub open spec fn count_better(keys: Seq<(int, int)>, key: (int, int)) -> int
    decreases keys.len(),
{
    if keys.len() == 0 {
        0
    } else {
        count_better(keys.drop_last(), key) + if better(keys.last(), key) {
            1int
        } else {
            0
        }
    }
}

pub open spec fn ids_of(member_ids: Seq<String>) -> Seq<Seq<char>> {
    member_ids.map_values(|s: String| s@)
}

pub open spec fn keys_of(ids: Seq<Seq<char>>, lines: Seq<ScoredLine>) -> Seq<(int, int)> {
    ids.map_values(|id: Seq<char>| rank_key(lines, id))
}

/// What `compute` gives for the member at index `i`.
pub open spec fn standing_matches(
    s: RankedStanding,
    ids: Seq<Seq<char>>,
    lines: Seq<ScoredLine>,
    i: int,
) -> bool {
    let id = ids[i];
    &&& s.pool_member_id@ == id
    &&& s.total_points == member_points(lines, id)
    &&& s.exact_count == member_hits(lines, id, HitKind::Exact)
    &&& s.outcome_count == member_hits(lines, id, HitKind::Outcome)
    &&& s.hits_count == s.exact_count + s.outcome_count
    &&& s.penalties_count == member_penalty_hits(lines, id)
    &&& s.position == 1 + count_better(keys_of(ids, lines), rank_key(lines, id))
}

proof fn lemma_count_better_bounds(keys: Seq<(int, int)>, key: (int, int))
    ensures
        0 <= count_better(keys, key) <= keys.len(),
    decreases keys.len(),
{
    if keys.len() > 0 {
        lemma_count_better_bounds(keys.drop_last(), key);
    }
}

proof fn lemma_take_last<T>(s: Seq<T>, j: int)
    requires
        0 <= j < s.len(),
    ensures
        s.take(j + 1).drop_last() == s.take(j),
        s.take(j + 1).last() == s[j],
{
    assert(s.take(j + 1).drop_last() =~= s.take(j));
}

/// Every member's totals fit the `i32` fields of a standing.
pub open spec fn totals_fit(ids: Seq<Seq<char>>, lines: Seq<ScoredLine>) -> bool {
    forall|i: int|
        0 <= i < ids.len() ==> {
            &&& i32::MIN <= #[trigger] member_points(lines, ids[i]) <= i32::MAX
            &&& member_hits(lines, ids[i], HitKind::Exact) + member_hits(lines, ids[i], HitKind::Outcome)
                <= i32::MAX
            &&& member_penalty_hits(lines, ids[i]) <= i32::MAX
        }
}

proof fn lemma_counts_nonnegative(lines: Seq<ScoredLine>, id: Seq<char>)
    ensures
        member_hits(lines, id, HitKind::Exact) >= 0,
        member_hits(lines, id, HitKind::Outcome) >= 0,
        member_penalty_hits(lines, id) >= 0,
    decreases lines.len(),
{
    if lines.len() > 0 {
        lemma_counts_nonnegative(lines.drop_last(), id);
    }
}

struct Tally {
    total: i128,
    exact: usize,
    outcome: usize,
    penalties: usize,
}

/// Totals of one member over all lines.
fn tally(id: &String, lines: &Vec<ScoredLine>) -> (t: Tally)
    ensures
        t.total == member_points(lines@, id@),
        t.exact == member_hits(lines@, id@, HitKind::Exact),
        t.outcome == member_hits(lines@, id@, HitKind::Outcome),
        t.penalties == member_penalty_hits(lines@, id@),
{
    let mut t = Tally { total: 0, exact: 0, outcome: 0, penalties: 0 };
    let mut j: usize = 0;
    while j < lines.len()
        invariant
            j <= lines.len(),
            t.total == member_points(lines@.take(j as int), id@),
            t.exact == member_hits(lines@.take(j as int), id@, HitKind::Exact),
            t.outcome == member_hits(lines@.take(j as int), id@, HitKind::Outcome),
            t.penalties == member_penalty_hits(lines@.take(j as int), id@),
            -32768 * j <= t.total <= 32767 * j,
            t.exact <= j,
            t.outcome <= j,
            t.penalties <= j,
        decreases lines.len() - j,
    {
        let line = &lines[j];
        proof {
            lemma_take_last(lines@, j as int);
        }
        if line.pool_member_id == *id {
            t.total = t.total + line.points as i128;
            match line.hit {
                HitKind::Exact => t.exact = t.exact + 1,
                HitKind::Outcome => t.outcome = t.outcome + 1,
                HitKind::Miss => {},
            }
            if line.penalty_hit {
                t.penalties = t.penalties + 1;
            }
        }
        j = j + 1;
    }
    assert(lines@.take(lines.len() as int) =~= lines@);
    t
}

fn tally_fits(t: &Tally) -> (r: bool)
    ensures
        r == (i32::MIN <= t.total <= i32::MAX && t.exact + t.outcome <= i32::MAX && t.penalties
            <= i32::MAX),
{
    -2147483648i128 <= t.total && t.total <= 2147483647i128 && t.exact <= 2147483647usize
        && t.outcome <= 2147483647usize - t.exact && t.penalties <= 2147483647usize
}

/// Whether every member's totals fit a standing, which `compute` needs.
pub fn standings_fit(member_ids: &Vec<String>, lines: &Vec<ScoredLine>) -> (r: bool)
    ensures
        r == totals_fit(ids_of(member_ids@), lines@),
{
    let ghost ids = ids_of(member_ids@);
    let mut i: usize = 0;
    while i < member_ids.len()
        invariant
            i <= member_ids.len(),
            ids == ids_of(member_ids@),
            forall|k: int|
                0 <= k < i ==> {
                    &&& i32::MIN <= #[trigger] member_points(lines@, ids[k]) <= i32::MAX
                    &&& member_hits(lines@, ids[k], HitKind::Exact) + member_hits(
                        lines@,
                        ids[k],
                        HitKind::Outcome,
                    ) <= i32::MAX
                    &&& member_penalty_hits(lines@, ids[k]) <= i32::MAX
                },
        decreases member_ids.len() - i,
    {
        let t = tally(&member_ids[i], lines);
        if !tally_fits(&t) {
            assert(!totals_fit(ids, lines@)) by {
                assert(ids[i as int] == member_ids@[i as int]@);
            }
            return false;
        }
        i = i + 1;
    }
    true
}

/// Per-member totals over the scored lines, in the order of `member_ids`, with
/// each member's position being one more than the number of members ranked
/// strictly above it (equal keys share a position). Lines of members not in
/// `member_ids` are left out.
pub fn compute(member_ids: &Vec<String>, lines: &Vec<ScoredLine>) -> (r: Vec<RankedStanding>)
    requires
        totals_fit(ids_of(member_ids@), lines@),
        member_ids.len() < i32::MAX,
    ensures
        r.len() == member_ids.len(),
        forall|i: int|
            0 <= i < r.len() ==> standing_matches(#[trigger] r@[i], ids_of(member_ids@), lines@, i),
{
    let ghost ids = ids_of(member_ids@);
    let ghost keys = keys_of(ids, lines@);
    let mut tallies: Vec<Tally> = Vec::new();
    let mut i: usize = 0;
    while i < member_ids.len()
        invariant
            i <= member_ids.len(),
            ids == ids_of(member_ids@),
            tallies.len() == i,
            forall|k: int|
                0 <= k < i ==> {
                    &&& (#[trigger] tallies@[k]).total == member_points(lines@, ids[k])
                    &&& tallies@[k].exact == member_hits(lines@, ids[k], HitKind::Exact)
                    &&& tallies@[k].outcome == member_hits(lines@, ids[k], HitKind::Outcome)
                    &&& tallies@[k].penalties == member_penalty_hits(lines@, ids[k])
                },
        decreases member_ids.len() - i,
    {
        let t = tally(&member_ids[i], lines);
        tallies.push(t);
        i = i + 1;
    }
    let mut r: Vec<RankedStanding> = Vec::new();
    let mut i: usize = 0;
    while i < member_ids.len()
        invariant
            i <= member_ids.len(),
            member_ids.len() < i32::MAX,
            ids == ids_of(member_ids@),
            keys == keys_of(ids, lines@),
            totals_fit(ids, lines@),
            tallies.len() == member_ids.len(),
            forall|k: int|
                0 <= k < member_ids.len() ==> {
                    &&& (#[trigger] tallies@[k]).total == member_points(lines@, ids[k])
                    &&& tallies@[k].exact == member_hits(lines@, ids[k], HitKind::Exact)
                    &&& tallies@[k].outcome == member_hits(lines@, ids[k], HitKind::Outcome)
                    &&& tallies@[k].penalties == member_penalty_hits(lines@, ids[k])
                },
            r.len() == i,
            forall|k: int| 0 <= k < i ==> standing_matches(#[trigger] r@[k], ids, lines@, k),
        decreases member_ids.len() - i,
    {
        let me = &tallies[i];
        let ghost key = rank_key(lines@, ids[i as int]);
        let mut above: i32 = 0;
        let mut j: usize = 0;
        while j < tallies.len()
            invariant
                j <= tallies.len(),
                i < tallies.len(),
                tallies.len() == member_ids.len(),
                member_ids.len() < i32::MAX,
                ids == ids_of(member_ids@),
                keys == keys_of(ids, lines@),
                me == tallies@[i as int],
                key == rank_key(lines@, ids[i as int]),
                forall|k: int|
                    0 <= k < member_ids.len() ==> {
                        &&& (#[trigger] tallies@[k]).total == member_points(lines@, ids[k])
                        &&& tallies@[k].exact == member_hits(lines@, ids[k], HitKind::Exact)
                    },
                above == count_better(keys.take(j as int), key),
                0 <= above <= j,
            decreases tallies.len() - j,
        {
            let other = &tallies[j];
            proof {
                lemma_take_last(keys, j as int);
            }
            if other.total > me.total || (other.total == me.total && other.exact > me.exact) {
                above = above + 1;
            }
            j = j + 1;
        }
        assert(keys.take(tallies.len() as int) =~= keys);
        proof {
            assert(i32::MIN <= member_points(lines@, ids[i as int]) <= i32::MAX);
            lemma_counts_nonnegative(lines@, ids[i as int]);
        }
        r.push(
            RankedStanding {
                pool_member_id: member_ids[i].clone(),
                total_points: me.total as i32,
                exact_count: me.exact as i32,
                outcome_count: me.outcome as i32,
                hits_count: (me.exact + me.outcome) as i32,
                penalties_count: me.penalties as i32,
                position: above + 1,
            },
        );
        i = i + 1;
    }
    r
}

proof fn lemma_count_better_monotone(keys: Seq<(int, int)>, x: (int, int), y: (int, int))
    requires
        better(x, y),
    ensures
        count_better(keys, x) <= count_better(keys, y),
        keys.contains(x) ==> count_better(keys, x) < count_better(keys, y),
    decreases keys.len(),
{
    if keys.len() > 0 {
        lemma_count_better_monotone(keys.drop_last(), x, y);
        if keys.contains(x) && !keys.drop_last().contains(x) {
            let k = choose|k: int| 0 <= k < keys.len() && keys[k] == x;
            if k < keys.len() - 1 {
                assert(keys.drop_last()[k] == x);
            }
        }
    }
}

/// Ranking order: a member whose key (points, then exact hits) is strictly
/// better than another's gets a strictly smaller position, and two members
/// with equal keys share a position.
pub proof fn law_better_ranks_higher(keys: Seq<(int, int)>, a: int, b: int)
    requires
        0 <= a < keys.len(),
        0 <= b < keys.len(),
    ensures
        better(keys[a], keys[b]) ==> count_better(keys, keys[a]) < count_better(keys, keys[b]),
        keys[a] == keys[b] ==> count_better(keys, keys[a]) == count_better(keys, keys[b]),
{
    if better(keys[a], keys[b]) {
        assert(keys.contains(keys[a]));
        lemma_count_better_monotone(keys, keys[a], keys[b]);
    }
}

/// Positions run from 1 to the number of members, and the best member is first.
pub proof fn law_positions_in_range(keys: Seq<(int, int)>, a: int)
    requires
        0 <= a < keys.len(),
    ensures
        1 <= 1 + count_better(keys, keys[a]) <= keys.len(),
{
    lemma_count_better_bounds(keys, keys[a]);
    lemma_not_all_better(keys, keys[a]);
}

proof fn lemma_not_all_better(keys: Seq<(int, int)>, x: (int, int))
    requires
        keys.contains(x),
    ensures
        count_better(keys, x) < keys.len(),
    decreases keys.len(),
{
    let n = keys.len();
    if keys.last() == x {
        lemma_count_better_bounds(keys.drop_last(), x);
    } else {
        let k = choose|k: int| 0 <= k < n && keys[k] == x;
        assert(keys.drop_last()[k] == x);
        lemma_not_all_better(keys.drop_last(), x);
    }
}

/// Some member is always in first place when the pool has members.
pub proof fn law_someone_first(keys: Seq<(int, int)>)
    requires
        keys.len() > 0,
    ensures
        exists|a: int| 0 <= a < keys.len() && count_better(keys, #[trigger] keys[a]) == 0,
    decreases keys.len(),
{
    if keys.len() == 1 {
        assert(count_better(keys.drop_last(), keys[0]) == 0);
        assert(count_better(keys, keys[0]) == 0);
    } else {
        let rest = keys.drop_last();
        law_someone_first(rest);
        let a = choose|a: int| 0 <= a < rest.len() && count_better(rest, #[trigger] rest[a]) == 0;
        let last = keys.last();
        if better(last, rest[a]) {
            // the last key beats the best of the rest: nothing beats it
            lemma_best_of_rest(rest, rest[a], last);
            assert(count_better(keys, keys[keys.len() - 1]) == 0);
        } else {
            assert(keys[a] == rest[a]);
            assert(count_better(keys, keys[a]) == 0);
        }
    }
}

proof fn lemma_best_of_rest(keys: Seq<(int, int)>, best: (int, int), x: (int, int))
    requires
        count_better(keys, best) == 0,
        better(x, best),
    ensures
        count_better(keys, x) == 0,
    decreases keys.len(),
{
    if keys.len() > 0 {
        lemma_count_better_bounds(keys.drop_last(), best);
        lemma_best_of_rest(keys.drop_last(), best, x);
    }
}

} // verus!
