//! The sampling engine: drive `n` trials against a pseudo-random source and
//! reduce their classifications to one inside-count, either in one tight
//! loop or chunk by chunk.
//!
//! The stream of the source is opaque, so each contract states what holds
//! for every possible stream: the count is the `count_inside` of some valid
//! sequence of `n` draws, and in particular never exceeds `n`.

use vstd::prelude::*;

use crate::chunks::chunk_lengths;
use crate::chunks::lemma_sum_seq_push;
use crate::chunks::lemma_sum_seq_take_le;
use crate::chunks::sum_seq;
use crate::counting::count_inside;
use crate::counting::inside_pair;
use crate::counting::lemma_count_inside_concat;
use crate::counting::lemma_count_inside_le_len;
use crate::counting::lemma_count_inside_push;
use crate::counting::lemma_valid_draws_concat;
use crate::counting::lemma_valid_draws_push;
use crate::counting::valid_draws;
use crate::source::Source;
use crate::trial::classify;

verus! {

/// Run `n` trials against the given source and count those inside: the
/// partial count of one chunk, and the whole engine in sequential mode.
/// Whatever the source yields, the result is the inside-count of some valid
/// sequence of exactly `n` draws — so it lies in `[0, n]`.
pub fn sample_count(src: &mut Source, n: u64) -> (count: u64)
    ensures
        count <= n,
        n == 0 ==> count == 0,
        exists|s: Seq<(u32, u32)>|
            valid_draws(s) && s.len() == n && count == count_inside(s),
{
    let mut count: u64 = 0;
    let ghost mut drawn: Seq<(u32, u32)> = Seq::empty();
    let mut i: u64 = 0;
    while i < n
        invariant
            i <= n,
            count <= i,
            drawn.len() == i,
            valid_draws(drawn),
            count == count_inside(drawn),
        decreases n - i,
    {
        let x = src.next_coord();
        let y = src.next_coord();
        let inside = classify(x, y);
        proof {
            lemma_count_inside_push(drawn, (x, y));
            lemma_valid_draws_push(drawn, (x, y));
            assert(inside_pair((x, y)) == inside);
            drawn = drawn.push((x, y));
        }
        if inside {
            count = count + 1;
        }
        i = i + 1;
    }
    proof {
        assert(valid_draws(drawn) && drawn.len() == n && count == count_inside(drawn));
    }
    count
}

/// Sequential mode with a fresh entropy-seeded source: `n` trials, one
/// generator, one loop. The count lies in `[0, n]`; `n == 0` yields `0`.
pub fn run(n: u64) -> (count: u64)
    ensures
        count <= n,
        n == 0 ==> count == 0,
        exists|s: Seq<(u32, u32)>|
            valid_draws(s) && s.len() == n && count == count_inside(s),
{
    let mut src = Source::from_entropy();
    sample_count(&mut src, n)
}

/// Sequential mode with a fixed seed: the reproducible entry point. Two
/// calls with equal `n` and `seed` draw the identical stream.
pub fn run_seeded(n: u64, seed: u64) -> (count: u64)
    ensures
        count <= n,
        n == 0 ==> count == 0,
        exists|s: Seq<(u32, u32)>|
            valid_draws(s) && s.len() == n && count == count_inside(s),
{
    let mut src = Source::from_seed(seed);
    sample_count(&mut src, n)
}

/// Chunked mode within one context: cut `[0, n)` into chunks, count each
/// chunk on its own against the same source, and sum the partial counts.
/// This is the verified model of the parallel path — chunk boundaries only
/// redistribute work, and the total is again the inside-count of some valid
/// sequence of exactly `n` draws.
pub fn run_chunked(src: &mut Source, n: u64, chunk_size: u64) -> (total: u64)
    requires
        chunk_size >= 1,
    ensures
        total <= n,
        n == 0 ==> total == 0,
        exists|s: Seq<(u32, u32)>|
            valid_draws(s) && s.len() == n && total == count_inside(s),
{
    let lens = chunk_lengths(n, chunk_size);
    let mut total: u64 = 0;
    let ghost mut drawn: Seq<(u32, u32)> = Seq::empty();
    let mut i: usize = 0;
    while i < lens.len()
        invariant
            i <= lens@.len(),
            sum_seq(lens@) == n,
            drawn.len() == sum_seq(lens@.take(i as int)),
            valid_draws(drawn),
            total == count_inside(drawn),
            total <= drawn.len(),
        decreases lens@.len() - i,
    {
        let len_i = lens[i];
        let partial = sample_count(src, len_i);
        proof {
            let s_i = choose|s: Seq<(u32, u32)>|
                valid_draws(s) && s.len() == len_i && partial == count_inside(s);
            lemma_count_inside_concat(drawn, s_i);
            lemma_valid_draws_concat(drawn, s_i);
            lemma_count_inside_le_len(drawn + s_i);
            assert(lens@.take(i as int).push(lens@[i as int]) =~= lens@.take(i as int + 1));
            lemma_sum_seq_push(lens@.take(i as int), lens@[i as int]);
            lemma_sum_seq_take_le(lens@, i as int + 1);
            drawn = drawn + s_i;
        }
        total = total + partial;
        i = i + 1;
    }
    proof {
        assert(lens@.take(lens@.len() as int) =~= lens@);
        lemma_count_inside_le_len(drawn);
        assert(valid_draws(drawn) && drawn.len() == n && total == count_inside(drawn));
    }
    total
}

} // verus!
