use pi_mc::chunks::chunk_lengths;
use pi_mc::chunks::combine_partials;

#[test]
fn last_chunk_absorbs_the_remainder() {
    assert_eq!(chunk_lengths(10, 3), vec![3, 3, 3, 1]);
    assert_eq!(chunk_lengths(7, 2), vec![2, 2, 2, 1]);
}

#[test]
fn even_division_needs_no_short_chunk() {
    assert_eq!(chunk_lengths(12, 4), vec![4, 4, 4]);
    assert_eq!(chunk_lengths(5, 5), vec![5]);
}

#[test]
fn oversized_chunk_degenerates_to_one() {
    assert_eq!(chunk_lengths(10, 20), vec![10]);
    assert_eq!(chunk_lengths(1, u64::MAX), vec![1]);
}

#[test]
fn zero_trials_need_no_chunk() {
    assert_eq!(chunk_lengths(0, 5), Vec::<u64>::new());
}

#[test]
fn chunk_lengths_cover_the_range_once() {
    for n in [0u64, 1, 2, 99, 100, 101, 1000] {
        for chunk_size in [1u64, 3, 7, 100, 1000] {
            let lens = chunk_lengths(n, chunk_size);
            assert_eq!(lens.iter().sum::<u64>(), n);
            for (i, &len) in lens.iter().enumerate() {
                assert!(1 <= len && len <= chunk_size);
                if i + 1 < lens.len() {
                    assert_eq!(len, chunk_size);
                }
            }
        }
    }
}

#[test]
fn partial_counts_reduce_by_plain_addition() {
    let partials = vec![1u64, 2, 3];
    let lens = vec![3u64, 3, 4];
    assert_eq!(combine_partials(&partials, &lens), 6);
}

#[test]
fn empty_reduction_is_zero() {
    assert_eq!(combine_partials(&Vec::new(), &Vec::new()), 0);
}
