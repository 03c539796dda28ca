//! Performance scores, the integer logarithm, and the random source.

use fuzzsched::metadata::PowerSchedule;
use fuzzsched::rand::RandSource;
use fuzzsched::score::{calculate_score, log2_floor};

#[test]
fn log2_floor_values() {
    assert_eq!(log2_floor(1), 0);
    assert_eq!(log2_floor(2), 1);
    assert_eq!(log2_floor(3), 1);
    assert_eq!(log2_floor(4), 2);
    assert_eq!(log2_floor(8), 3);
    assert_eq!(log2_floor(1023), 9);
    assert_eq!(log2_floor(1024), 10);
    assert_eq!(log2_floor(u32::MAX), 31);
}

#[test]
fn explore_score_scales_with_depth() {
    assert_eq!(calculate_score(0, 0, 0, 1, PowerSchedule::Explore), 100);
    assert_eq!(calculate_score(3, 0, 0, 1, PowerSchedule::Explore), 100);
    assert_eq!(calculate_score(4, 0, 0, 1, PowerSchedule::Explore), 200);
    assert_eq!(calculate_score(8, 0, 0, 1, PowerSchedule::Explore), 300);
    assert_eq!(calculate_score(14, 0, 0, 1, PowerSchedule::Explore), 400);
    assert_eq!(calculate_score(26, 0, 0, 1, PowerSchedule::Explore), 500);
}

#[test]
fn exploit_score_hits_the_ceiling() {
    assert_eq!(calculate_score(0, 0, 0, 1, PowerSchedule::Exploit), 400);
    assert_eq!(calculate_score(26, 0, 0, 1, PowerSchedule::Exploit), 2000);
}

#[test]
fn fast_score_shrinks_with_bucket_count() {
    assert_eq!(calculate_score(0, 0, 0, 1, PowerSchedule::Fast), 100);
    assert_eq!(calculate_score(0, 1, 0, 1, PowerSchedule::Fast), 100);
    assert_eq!(calculate_score(0, 8, 0, 1, PowerSchedule::Fast), 25);
    assert_eq!(calculate_score(0, u32::MAX, 0, 1, PowerSchedule::Fast), 3);
}

#[test]
fn coe_score_cuts_off_above_average() {
    // mu = 5/2: log2(16) * 2 = 8 > 5 cuts off, log2(2) * 2 = 2 <= 5 keeps
    assert_eq!(calculate_score(0, 16, 5, 2, PowerSchedule::Coe), 1);
    assert_eq!(calculate_score(0, 2, 5, 2, PowerSchedule::Coe), 100);
    assert_eq!(calculate_score(0, 0, 5, 2, PowerSchedule::Coe), 100);
}

#[test]
fn scores_stay_within_bounds() {
    for depth in [0u32, 4, 13, 25, 26, u32::MAX] {
        for count in [0u32, 1, 7, 4096, u32::MAX] {
            for strat in [
                PowerSchedule::Explore,
                PowerSchedule::Fast,
                PowerSchedule::Coe,
                PowerSchedule::Exploit,
            ] {
                let s = calculate_score(depth, count, 31, 1, strat);
                assert!((1..=2000).contains(&s));
            }
        }
    }
}

#[test]
fn below_stays_below_the_bound() {
    let mut rand = RandSource::new(42);
    for bound in [1u64, 2, 3, 7, 100, u64::MAX] {
        for _ in 0..20 {
            assert!(rand.below(bound) < bound);
        }
    }
}

#[test]
fn below_one_is_always_zero() {
    let mut rand = RandSource::new(7);
    for _ in 0..5 {
        assert_eq!(rand.below(1), 0);
    }
}

#[test]
fn equal_seeds_draw_equal_sequences() {
    let mut a = RandSource::new(99);
    let mut b = RandSource::new(99);
    for _ in 0..10 {
        assert_eq!(a.below(1000), b.below(1000));
    }
}

#[test]
fn zero_seed_is_replaced() {
    let mut a = RandSource::new(0);
    // a zero xorshift state would draw zero forever; the default seed
    // must not
    let mut all_zero = true;
    for _ in 0..10 {
        if a.below(1000) != 0 {
            all_zero = false;
        }
    }
    assert!(!all_zero);
}
