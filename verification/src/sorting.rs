//! Lexicographic order of texts and a stable sort of prediction lines by kickoff.

use vstd::prelude::*;

use crate::results::PredictionLine;
use crate::text::{seq_le, seq_lt, str_lt};

verus! {

pub proof fn lemma_lt_irreflexive(a: Seq<char>)
    ensures
        !seq_lt(a, a),
    decreases a.len(),
{
    if a.len() > 0 {
        lemma_lt_irreflexive(a.drop_first());
    }
}

pub proof fn lemma_lt_asymmetric(a: Seq<char>, b: Seq<char>)
    ensures
        seq_lt(a, b) ==> !seq_lt(b, a),
    decreases a.len(),
{
    if a.len() > 0 && b.len() > 0 && a[0] == b[0] {
        lemma_lt_asymmetric(a.drop_first(), b.drop_first());
    }
}

pub proof fn lemma_lt_transitive(a: Seq<char>, b: Seq<char>, c: Seq<char>)
    requires
        seq_lt(a, b),
        seq_lt(b, c),
    ensures
        seq_lt(a, c),
    decreases a.len(),
{
    if a.len() > 0 && b.len() > 0 && c.len() > 0 {
        if a[0] == b[0] && b[0] == c[0] {
            lemma_lt_transitive(a.drop_first(), b.drop_first(), c.drop_first());
        }
    }
}

pub proof fn lemma_lt_total(a: Seq<char>, b: Seq<char>)
    ensures
        a == b || seq_lt(a, b) || seq_lt(b, a),
    decreases a.len(),
{
    if a.len() > 0 && b.len() > 0 {
        if a[0] == b[0] {
            lemma_lt_total(a.drop_first(), b.drop_first());
            if a.drop_first() == b.drop_first() {
                assert(a =~= seq![a[0]] + a.drop_first());
                assert(b =~= seq![b[0]] + b.drop_first());
            }
        } else {
            assert((a[0] as int) != (b[0] as int));
        }
    } else if a.len() == 0 && b.len() == 0 {
        assert(a =~= b);
    }
}

/// `seq_le` is "less than or equal".
pub proof fn lemma_le_iff(a: Seq<char>, b: Seq<char>)
    ensures
        seq_le(a, b) <==> (seq_lt(a, b) || a == b),
{
    lemma_lt_total(a, b);
    lemma_lt_asymmetric(a, b);
    lemma_lt_irreflexive(a);
}

/// Lines ordered by kickoff text.
pub open spec fn kickoff_sorted(s: Seq<PredictionLine>) -> bool {
    forall|k: int, l: int|
        0 <= k < l < s.len() ==> seq_le(#[trigger] s[k].kickoff_at@, #[trigger] s[l].kickoff_at@)
}

/// `p` is a permutation of the indices of a sequence of length `n`.
pub open spec fn is_permutation(p: Seq<int>, n: int) -> bool {
    &&& p.len() == n
    &&& forall|k: int| 0 <= k < n ==> 0 <= #[trigger] p[k] < n
    &&& forall|k: int, l: int| 0 <= k < l < n ==> #[trigger] p[k] != #[trigger] p[l]
}

/// `out` is `input` sorted by kickoff, lines with the same kickoff keeping
/// their relative order.
pub open spec fn stable_kickoff_sort_of(out: Seq<PredictionLine>, input: Seq<PredictionLine>) -> bool {
    exists|p: Seq<int>|
        {
            &&& is_permutation(p, input.len() as int)
            &&& out.len() == input.len()
            &&& forall|k: int| 0 <= k < out.len() ==> #[trigger] out[k] == input[p[k]]
            &&& kickoff_sorted(out)
            &&& forall|k: int, l: int|
                0 <= k < l < out.len() && #[trigger] out[k].kickoff_at@ == #[trigger] out[l].kickoff_at@
                    ==> p[k] < p[l]
        }
}

/// Sorts lines by kickoff, keeping the order of lines with the same kickoff.
pub fn sort_by_kickoff(input: Vec<PredictionLine>) -> (out: Vec<PredictionLine>)
    ensures
        stable_kickoff_sort_of(out@, input@),
{
    let mut out: Vec<PredictionLine> = Vec::new();
    let ghost mut p: Seq<int> = Seq::empty();
    let mut rest = input;
    let ghost orig = rest@;
    // consume from the front
    let mut src: Vec<PredictionLine> = Vec::new();
    // reverse so that popping yields the original order
    while rest.len() > 0
        invariant
            src@.len() + rest@.len() == orig.len(),
            forall|k: int| 0 <= k < rest@.len() ==> #[trigger] rest@[k] == orig[k],
            forall|k: int|
                0 <= k < src@.len() ==> #[trigger] src@[k] == orig[orig.len() - 1 - k],
        decreases rest.len(),
    {
        let x = rest.pop().unwrap();
        src.push(x);
    }
    let n = src.len();
    let mut i: usize = 0;
    while i < n
        invariant
            n == orig.len(),
            src@.len() == n - i,
            forall|k: int| 0 <= k < src@.len() ==> #[trigger] src@[k] == orig[orig.len() - 1 - k],
            i <= n,
            out@.len() == i,
            is_permutation(p, i as int),
            forall|k: int| 0 <= k < i ==> #[trigger] out@[k] == orig[p[k]],
            kickoff_sorted(out@),
            forall|k: int, l: int|
                0 <= k < l < i && #[trigger] out@[k].kickoff_at@ == #[trigger] out@[l].kickoff_at@
                    ==> p[k] < p[l],
        decreases n - i,
    {
        let x = src.pop().unwrap();
        assert(x == orig[i as int]);
        let mut pos: usize = 0;
        while pos < out.len() && !str_lt(x.kickoff_at.as_str(), out[pos].kickoff_at.as_str())
            invariant
                pos <= out@.len(),
                forall|k: int| 0 <= k < pos ==> seq_le(#[trigger] out@[k].kickoff_at@, x.kickoff_at@),
            decreases out.len() - pos,
        {
            proof {
                lemma_le_iff(out@[pos as int].kickoff_at@, x.kickoff_at@);
                lemma_le_iff(x.kickoff_at@, out@[pos as int].kickoff_at@);
                lemma_lt_total(x.kickoff_at@, out@[pos as int].kickoff_at@);
            }
            pos = pos + 1;
        }
        let ghost old_out = out@;
        let ghost old_p = p;
        proof {
            // everything from `pos` on is strictly after `x`
            assert forall|l: int| pos <= l < old_out.len() implies seq_lt(
                x.kickoff_at@,
                #[trigger] old_out[l].kickoff_at@,
            ) by {
                let a = old_out[pos as int].kickoff_at@;
                let b = old_out[l].kickoff_at@;
                if l > pos {
                    assert(seq_le(a, b));
                    lemma_le_iff(a, b);
                    if seq_lt(a, b) {
                        lemma_lt_transitive(x.kickoff_at@, a, b);
                    }
                }
            }
        }
        out.insert(pos, x);
        proof {
            p = old_p.insert(pos as int, i as int);
            assert forall|k: int| 0 <= k < n && k < i + 1 implies 0 <= #[trigger] p[k] < i + 1 by {}
            assert forall|k: int, l: int| 0 <= k < l < i + 1 implies #[trigger] p[k] != #[trigger] p[l] by {
                if k < pos && l > pos {
                    assert(p[l] == old_p[l - 1]);
                } else if k > pos {
                    assert(p[k] == old_p[k - 1]);
                    assert(p[l] == old_p[l - 1]);
                }
            }
            assert forall|k: int| 0 <= k < i + 1 implies #[trigger] out@[k] == orig[p[k]] by {
                if k < pos {
                    assert(out@[k] == old_out[k]);
                } else if k > pos {
                    assert(out@[k] == old_out[k - 1]);
                }
            }
            assert forall|k: int, l: int| 0 <= k < l < out@.len() implies seq_le(
                #[trigger] out@[k].kickoff_at@,
                #[trigger] out@[l].kickoff_at@,
            ) by {
                if k < pos && l == pos {
                } else if k < pos && l > pos {
                    assert(out@[l] == old_out[l - 1]);
                    assert(seq_le(old_out[k].kickoff_at@, old_out[l - 1].kickoff_at@));
                } else if k == pos {
                    assert(out@[l] == old_out[l - 1]);
                    assert(seq_lt(x.kickoff_at@, old_out[l - 1].kickoff_at@));
                    lemma_lt_asymmetric(x.kickoff_at@, old_out[l - 1].kickoff_at@);
                } else if k > pos {
                    assert(out@[k] == old_out[k - 1]);
                    assert(out@[l] == old_out[l - 1]);
                }
            }
            assert forall|k: int, l: int|
                0 <= k < l < i + 1 && #[trigger] out@[k].kickoff_at@ == #[trigger] out@[l].kickoff_at@
                    implies p[k] < p[l] by {
                if l == pos {
                    assert(p[l] == i);
                } else if k == pos {
                    assert(out@[l] == old_out[l - 1]);
                    assert(seq_lt(x.kickoff_at@, old_out[l - 1].kickoff_at@));
                    lemma_lt_irreflexive(x.kickoff_at@);
                } else if k < pos && l > pos {
                    assert(out@[l] == old_out[l - 1]);
                    assert(p[l] == old_p[l - 1]);
                } else if k > pos {
                    assert(out@[k] == old_out[k - 1]);
                    assert(out@[l] == old_out[l - 1]);
                    assert(p[k] == old_p[k - 1]);
                    assert(p[l] == old_p[l - 1]);
                }
            }
        }
        i = i + 1;
    }
    out
}

} // verus!
