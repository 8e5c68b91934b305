//! Partitioning a run of `n` trials into chunks, and the exact integer
//! reduction of per-chunk partial counts. Chunks are disjoint, cover the
//! range exactly once, and the last chunk absorbs any remainder.

use vstd::prelude::*;

use vstd::arithmetic::div_mod::lemma_fundamental_div_mod;

verus! {

/// The sum of a sequence of partial counts, as an unbounded integer.
pub open spec fn sum_seq(s: Seq<u64>) -> int
    decreases s.len(),
{
    if s.len() == 0 {
        0
    } else {
        sum_seq(s.drop_last()) + s.last()
    }
}

/// How many chunks a run of `n` trials falls into at the given chunk size:
/// the quotient, rounded up.
pub open spec fn spec_num_chunks(n: int, chunk_size: int) -> int
    recommends
        chunk_size >= 1,
{
    if n % chunk_size == 0 {
        n / chunk_size
    } else {
        n / chunk_size + 1
    }
}

/// A sum grows by exactly the appended element.
pub proof fn lemma_sum_seq_push(s: Seq<u64>, x: u64)
    ensures
        sum_seq(s.push(x)) == sum_seq(s) + x,
{
    assert(s.push(x).drop_last() =~= s);
    assert(s.push(x).last() == x);
}

/// A prefix never sums to more than the whole sequence.
pub proof fn lemma_sum_seq_take_le(s: Seq<u64>, k: int)
    requires
        0 <= k <= s.len(),
    ensures
        sum_seq(s.take(k)) <= sum_seq(s),
    decreases s.len(),
{
    if k == s.len() {
        assert(s.take(k) =~= s);
    } else {
        assert(s.drop_last().take(k) =~= s.take(k));
        lemma_sum_seq_take_le(s.drop_last(), k);
    }
}

/// Cut the range `[0, n)` into chunk lengths: every chunk holds exactly
/// `chunk_size` trials except the last, which holds the remainder when
/// `chunk_size` does not divide `n`. The lengths sum to `n` exactly, so the
/// chunks cover the range once — no trial is lost or counted twice. When
/// `chunk_size >= n > 0` the whole range is one chunk; `n == 0` needs no
/// chunk at all.
pub fn chunk_lengths(n: u64, chunk_size: u64) -> (lens: Vec<u64>)
    requires
        chunk_size >= 1,
    ensures
        lens@.len() == spec_num_chunks(n as int, chunk_size as int),
        forall|i: int| 0 <= i < lens@.len() - 1 ==> lens@[i] == chunk_size,
        lens@.len() > 0 ==> lens@[lens@.len() - 1] == (if n as int % (chunk_size as int) == 0 {
            chunk_size as int
        } else {
            n as int % (chunk_size as int)
        }),
        forall|i: int| 0 <= i < lens@.len() ==> 1 <= #[trigger] lens@[i] <= chunk_size,
        sum_seq(lens@) == n,
{
    let full: u64 = n / chunk_size;
    let rem: u64 = n % chunk_size;
    let mut lens: Vec<u64> = Vec::new();
    let mut i: u64 = 0;
    while i < full
        invariant
            i <= full,
            chunk_size >= 1,
            full == n as int / chunk_size as int,
            lens@.len() == i,
            forall|j: int| 0 <= j < lens@.len() ==> lens@[j] == chunk_size,
            sum_seq(lens@) == i * chunk_size,
        decreases full - i,
    {
        proof {
            lemma_sum_seq_push(lens@, chunk_size);
            assert((i + 1) * chunk_size == i * chunk_size + chunk_size) by (nonlinear_arith);
        }
        lens.push(chunk_size);
        i = i + 1;
    }
    if rem > 0 {
        proof {
            lemma_sum_seq_push(lens@, rem);
        }
        lens.push(rem);
    }
    proof {
        lemma_fundamental_div_mod(n as int, chunk_size as int);
        assert(full * chunk_size == chunk_size * full) by (nonlinear_arith);
    }
    lens
}

/// Reduce partial counts to the total by plain integer addition. Each
/// partial is bounded by its chunk's length, so the total is bounded by the
/// summed lengths and the addition cannot overflow.
pub fn combine_partials(partials: &Vec<u64>, lens: &Vec<u64>) -> (total: u64)
    requires
        partials@.len() == lens@.len(),
        forall|i: int| 0 <= i < partials@.len() ==> partials@[i] <= lens@[i],
        sum_seq(lens@) <= u64::MAX,
    ensures
        total == sum_seq(partials@),
        total <= sum_seq(lens@),
{
    let mut total: u64 = 0;
    let mut i: usize = 0;
    while i < partials.len()
        invariant
            i <= partials@.len(),
            partials@.len() == lens@.len(),
            forall|j: int| 0 <= j < partials@.len() ==> partials@[j] <= lens@[j],
            sum_seq(lens@) <= u64::MAX,
            total == sum_seq(partials@.take(i as int)),
            total <= sum_seq(lens@.take(i as int)),
        decreases partials@.len() - i,
    {
        proof {
            assert(partials@.take(i as int).push(partials@[i as int]) =~= partials@.take(
                i as int + 1,
            ));
            assert(lens@.take(i as int).push(lens@[i as int]) =~= lens@.take(i as int + 1));
            lemma_sum_seq_push(partials@.take(i as int), partials@[i as int]);
            lemma_sum_seq_push(lens@.take(i as int), lens@[i as int]);
            lemma_sum_seq_take_le(lens@, i as int + 1);
        }
        total = total + partials[i];
        i = i + 1;
    }
    proof {
        assert(partials@.take(partials@.len() as int) =~= partials@);
        assert(lens@.take(lens@.len() as int) =~= lens@);
    }
    total
}

} // verus!
