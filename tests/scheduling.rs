use fuzz_oracles::mutator::{select_strategy, Strategy};
use fuzz_oracles::scheduler::{compute_power, is_profitable, weighted_pick, MAX_POWER, MIN_POWER};

#[test]
fn unvisited_seed_gets_minimum_power() {
    assert_eq!(compute_power(3, 0, 0, 0, false), MIN_POWER);
    assert_eq!(compute_power(3, 0, 50, 7, true), 4);
}

#[test]
fn power_formula_values() {
    assert_eq!(compute_power(3, 1, 0, 0, false), 768);
    assert_eq!(compute_power(3, 2, 0, 1, false), 384 + 16);
    assert_eq!(compute_power(0, 5, 1, 0, false), 20000);
    assert_eq!(compute_power(1, 100, 0, 0, false), 4);
    assert_eq!(compute_power(1, 10, 0, 0, true), 25 * 1000);
}

#[test]
fn power_is_clamped() {
    assert_eq!(compute_power(1000, 1, 0, 0, false), MAX_POWER);
    assert_eq!(compute_power(u64::MAX, 1, u64::MAX, u64::MAX, true), 25600);
    assert_eq!(compute_power(0, 1, 0, 0, false), 4);
}

#[test]
fn power_monotone_in_state_change() {
    let mut last = 0;
    for s in 0..5u64 {
        let p = compute_power(1, 3, s, 2, false);
        assert!(p >= last);
        assert!((MIN_POWER..=MAX_POWER).contains(&p));
        last = p;
    }
}

#[test]
fn profit_threshold() {
    assert!(!is_profitable(1_000_000_000_000_000_000));
    assert!(is_profitable(1_000_000_000_000_000_001));
}

#[test]
fn strategy_ranges() {
    let w = [5u64, 10, 5, 20, 10, 10, 40];
    assert_eq!(select_strategy(&w, 0), Strategy::Liquidation);
    assert_eq!(select_strategy(&w, 4), Strategy::Liquidation);
    assert_eq!(select_strategy(&w, 5), Strategy::AbiField);
    assert_eq!(select_strategy(&w, 15), Strategy::Caller);
    assert_eq!(select_strategy(&w, 20), Strategy::TurnToStep);
    assert_eq!(select_strategy(&w, 40), Strategy::Borrow);
    assert_eq!(select_strategy(&w, 50), Strategy::Randomness);
    assert_eq!(select_strategy(&w, 60), Strategy::Havoc);
    assert_eq!(select_strategy(&w, 99), Strategy::Havoc);
    assert_eq!(select_strategy(&w, 1000), Strategy::Havoc);
}

#[test]
fn strategy_zero_weights_skipped() {
    let w = [0u64, 0, 3, 0, 0, 0, 0];
    assert_eq!(select_strategy(&w, 0), Strategy::Caller);
    assert_eq!(select_strategy(&w, 3), Strategy::Havoc);
}

#[test]
fn weighted_pick_by_ranges() {
    let p = vec![4u64, 0, 6];
    assert_eq!(weighted_pick(&p, 0), Some(0));
    assert_eq!(weighted_pick(&p, 3), Some(0));
    assert_eq!(weighted_pick(&p, 4), Some(2));
    assert_eq!(weighted_pick(&p, 9), Some(2));
    assert_eq!(weighted_pick(&p, 10), Some(0));
    assert_eq!(weighted_pick(&p, 14), Some(2));
}

#[test]
fn weighted_pick_without_power() {
    assert_eq!(weighted_pick(&Vec::new(), 5), None);
    assert_eq!(weighted_pick(&vec![0, 0], 5), None);
    assert_eq!(weighted_pick(&vec![u64::MAX, u64::MAX], u64::MAX), Some(1));
}
