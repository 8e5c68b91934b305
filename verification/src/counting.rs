//! The mathematical model of a run: the inside-count of a sequence of
//! trials, and the laws that make chunked (and hence parallel) counting
//! agree with counting the whole sequence at once.

use vstd::prelude::*;

use crate::trial::SCALE;
use crate::trial::inside_spec;

verus! {

/// One drawn trial, as the pair of its grid coordinates.
pub open spec fn inside_pair(p: (u32, u32)) -> bool {
    inside_spec(p.0 as int, p.1 as int)
}

/// Every draw lies on the half-open unit square `[0, 1) x [0, 1)`.
pub open spec fn valid_draws(s: Seq<(u32, u32)>) -> bool {
    forall|i: int| 0 <= i < s.len() ==> s[i].0 < SCALE && s[i].1 < SCALE
}

/// How many trials of the sequence classify as inside.
pub open spec fn count_inside(s: Seq<(u32, u32)>) -> nat
    decreases s.len(),
{
    if s.len() == 0 {
        0
    } else {
        count_inside(s.drop_last()) + (if inside_pair(s.last()) {
            1nat
        } else {
            0nat
        })
    }
}

/// The per-chunk counts of a partitioned run, summed: each chunk is counted
/// on its own and the partial counts are added.
pub open spec fn count_inside_chunked(chunks: Seq<Seq<(u32, u32)>>) -> nat
    decreases chunks.len(),
{
    if chunks.len() == 0 {
        0
    } else {
        count_inside(chunks.first()) + count_inside_chunked(chunks.drop_first())
    }
}

/// A count never exceeds the number of trials counted.
pub proof fn lemma_count_inside_le_len(s: Seq<(u32, u32)>)
    ensures
        count_inside(s) <= s.len(),
    decreases s.len(),
{
    if s.len() > 0 {
        lemma_count_inside_le_len(s.drop_last());
    }
}

/// Appending one trial raises the count by its own classification.
pub proof fn lemma_count_inside_push(s: Seq<(u32, u32)>, p: (u32, u32))
    ensures
        count_inside(s.push(p)) == count_inside(s) + (if inside_pair(p) {
            1nat
        } else {
            0nat
        }),
{
    assert(s.push(p).drop_last() =~= s);
    assert(s.push(p).last() == p);
}

/// Appending a draw from the unit square keeps the sequence of draws valid.
pub proof fn lemma_valid_draws_push(s: Seq<(u32, u32)>, p: (u32, u32))
    requires
        valid_draws(s),
        p.0 < SCALE,
        p.1 < SCALE,
    ensures
        valid_draws(s.push(p)),
{
    assert forall|i: int| 0 <= i < s.push(p).len() implies s.push(p)[i].0 < SCALE && s.push(
        p,
    )[i].1 < SCALE by {
        if i < s.len() {
            assert(s.push(p)[i] == s[i]);
        } else {
            assert(s.push(p)[i] == p);
        }
    }
}

/// Concatenating two valid sequences of draws yields a valid sequence.
pub proof fn lemma_valid_draws_concat(a: Seq<(u32, u32)>, b: Seq<(u32, u32)>)
    requires
        valid_draws(a),
        valid_draws(b),
    ensures
        valid_draws(a + b),
{
    assert forall|i: int| 0 <= i < (a + b).len() implies (a + b)[i].0 < SCALE && (a + b)[i].1
        < SCALE by {
        if i < a.len() {
            assert((a + b)[i] == a[i]);
        } else {
            assert((a + b)[i] == b[i - a.len()]);
        }
    }
}

/// The reduction is associative: counting two stretches of trials separately
/// and adding gives the count of the stretches run back to back.
pub proof fn lemma_count_inside_concat(a: Seq<(u32, u32)>, b: Seq<(u32, u32)>)
    ensures
        count_inside(a + b) == count_inside(a) + count_inside(b),
    decreases b.len(),
{
    if b.len() == 0 {
        assert(a + b =~= a);
    } else {
        assert((a + b).drop_last() =~= a + b.drop_last());
        assert((a + b).last() == b.last());
        lemma_count_inside_concat(a, b.drop_last());
    }
}

/// Chunking invariance: however a stream of trials is cut into chunks, the
/// summed per-chunk counts equal the count of the whole stream. Chunk
/// boundaries move work around; they never change the total.
pub proof fn lemma_count_inside_chunking(chunks: Seq<Seq<(u32, u32)>>)
    ensures
        count_inside_chunked(chunks) == count_inside(chunks.flatten()),
    decreases chunks.len(),
{
    if chunks.len() == 0 {
        assert(chunks.flatten() =~= Seq::<(u32, u32)>::empty());
    } else {
        lemma_count_inside_chunking(chunks.drop_first());
        lemma_count_inside_concat(chunks.first(), chunks.drop_first().flatten());
    }
}

} // verus!
