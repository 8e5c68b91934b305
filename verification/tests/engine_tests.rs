use pi_mc::engine::run;
use pi_mc::engine::run_chunked;
use pi_mc::engine::run_seeded;
use pi_mc::engine::sample_count;
use pi_mc::source::Source;

#[test]
fn zero_trials_count_zero() {
    assert_eq!(run(0), 0);
    assert_eq!(run_seeded(0, 9), 0);
    let mut src = Source::from_seed(9);
    assert_eq!(run_chunked(&mut src, 0, 5), 0);
}

#[test]
fn count_never_exceeds_trials() {
    assert!(run(1000) <= 1000);
    let mut src = Source::from_entropy();
    assert!(sample_count(&mut src, 500) <= 500);
    let mut src2 = Source::from_entropy();
    assert!(run_chunked(&mut src2, 1000, 7) <= 1000);
}

#[test]
fn fixed_seed_reproduces_the_count() {
    assert_eq!(run_seeded(10_000, 42), run_seeded(10_000, 42));
    assert_eq!(run_seeded(10_000, 7), run_seeded(10_000, 7));
}

#[test]
fn chunk_size_does_not_change_the_count() {
    // One context, one stream: chunk boundaries only redistribute work.
    let whole = run_seeded(10_000, 123);
    for chunk_size in [1u64, 10, 37, 1000, 10_000, 1_000_000] {
        let mut src = Source::from_seed(123);
        assert_eq!(run_chunked(&mut src, 10_000, chunk_size), whole);
    }
}

#[test]
fn million_trials_approximate_pi_over_four() {
    // Expectation is n * pi / 4, about 785398; a few standard deviations
    // (sigma is about 411) stay well within this band.
    let count = run_seeded(1_000_000, 20260101);
    assert!(count.abs_diff(785_398) <= 1_500, "count was {count}");
}

#[test]
fn chunked_million_approximates_pi_over_four() {
    let mut src = Source::from_seed(424242);
    let count = run_chunked(&mut src, 1_000_000, 4096);
    assert!(count.abs_diff(785_398) <= 1_500, "count was {count}");
}

#[test]
fn estimate_tightens_with_more_trials() {
    // 4 * count / n as a rough check in integer arithmetic: the estimate
    // times 10^4 lands near 31416.
    let n: u64 = 2_000_000;
    let count = run_seeded(n, 55);
    let scaled = 4 * count * 10_000 / n;
    assert!((31_300..=31_530).contains(&scaled), "scaled estimate was {scaled}");
}
