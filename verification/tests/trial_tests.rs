use pi_mc::trial::SCALE;
use pi_mc::trial::classify;
use pi_mc::trial::coord_of_raw;

#[test]
fn boundary_point_is_inside() {
    // (1.0, 0.0): x^2 + y^2 is exactly 1.0 and the boundary is inclusive.
    assert!(classify(SCALE, 0));
    assert!(classify(0, SCALE));
}

#[test]
fn just_outside_the_boundary() {
    assert!(!classify(SCALE, 1));
    assert!(!classify(1, SCALE));
}

#[test]
fn origin_is_inside() {
    assert!(classify(0, 0));
}

#[test]
fn diagonal_near_the_circle() {
    // 46340^2 + 46341^2 <= SCALE^2 < 46341^2 + 46341^2.
    assert!(classify(46340, 46341));
    assert!(!classify(46341, 46341));
}

#[test]
fn coord_reduces_raw_word_mod_scale() {
    assert_eq!(coord_of_raw(0), 0);
    assert_eq!(coord_of_raw(65541), 5);
    assert_eq!(coord_of_raw(u64::MAX), 65535);
    assert!(coord_of_raw(0xdead_beef_dead_beef) < SCALE);
}
