use fuzz_oracles::address::Address;
use fuzz_oracles::balance_drain::{BalanceChange, BalanceDrainOracle, BALANCE_DRAIN_BUG_ID};
use fuzz_oracles::balance_tracker::{is_value_call, EthBalanceTracker, OP_CALL, OP_CALLCODE};
use fuzz_oracles::finding::BugResult;
use fuzz_oracles::mutator::{mutate_caller, Candidate};
use fuzz_oracles::profit::{
    calculate_confidence, enhanced_oracle_check, is_reasonable_profit, validate_profit,
};
use fuzz_oracles::reentrancy::{bug_id, profit_note, profitable_net, ReentrancyOracle, REENTRANCY_BUG_IDX};
use fuzz_oracles::wide::{U256, U512};

const ETHER: u128 = 1_000_000_000_000_000_000;

fn w(x: u128) -> U256 {
    U256::from_u128(x)
}

fn x(v: u128) -> U512 {
    U512::from_u128(v)
}

fn as_u128(v: &U512) -> u128 {
    assert!(v.limbs[2..].iter().all(|l| *l == 0));
    (v.limbs[0] as u128) | ((v.limbs[1] as u128) << 64)
}

fn addr(b: u8) -> Address {
    Address::repeat_byte(b)
}

#[test]
fn reasonable_profit_bounds() {
    assert!(is_reasonable_profit(x(10_000_000_000_000_000_000)));
    assert!(!is_reasonable_profit(x(9_999_999_999_999_999_999)));
    assert!(is_reasonable_profit(x(1_000_000_000_000_000_000_000_000)));
    assert!(!is_reasonable_profit(x(1_000_000_000_000_000_000_000_001)));
}

#[test]
fn validate_profit_rejects_loss_and_break_even() {
    assert!(validate_profit(x(5), x(5), w(0)).is_none());
    assert!(validate_profit(x(4), x(5), w(ETHER)).is_none());
}

#[test]
fn validate_profit_ordinary_profit() {
    let earned = x(60_000_000_000_000_000_000_000);
    let owed = x(10_000_000_000_000_000_000_000);
    let (p, suspicious) = validate_profit(earned, owed, w(10_000 * ETHER)).unwrap();
    assert_eq!(as_u128(&p), 50_000_000_000_000_000_000_000);
    assert!(!suspicious);
}

#[test]
fn validate_profit_suspicious_profit() {
    let earned = x(200_000_000_000_000_000_000_000);
    let (p, suspicious) = validate_profit(earned, x(0), w(100_000_000_000_000_000_000_000)).unwrap();
    assert_eq!(as_u128(&p), 200_000_000_000_000_000_000_000);
    assert!(suspicious);
}

#[test]
fn validate_profit_leverage_cap() {
    let earned = x(200_000_000_000_000_000_000_000);
    assert!(validate_profit(earned, x(0), w(10_000_000_000_000_000_000_000)).is_none());
    let small = x(50_000_000_000_000_000_000_000);
    assert!(validate_profit(small, x(0), w(4_000_000_000_000_000_000_000)).is_none());
    assert!(validate_profit(small, x(0), w(5_000_000_000_000_000_000_000)).is_some());
}

#[test]
fn validate_profit_below_floor_and_above_cap() {
    assert!(validate_profit(x(9_000_000_000_000_000_000), x(0), w(u128::MAX)).is_none());
    assert!(validate_profit(x(2_000_000_000_000_000_000_000_000), x(0), w(u128::MAX)).is_none());
}

#[test]
fn confidence_penalties() {
    let small = x(20_000_000_000_000_000_000);
    let big = x(200_000_000_000_000_000_000_000);
    assert_eq!(calculate_confidence(small, 5), 100);
    assert_eq!(calculate_confidence(small, 3), 100);
    assert_eq!(calculate_confidence(small, 10), 100);
    assert_eq!(calculate_confidence(small, 2), 80);
    assert_eq!(calculate_confidence(small, 11), 90);
    assert_eq!(calculate_confidence(big, 5), 70);
    assert_eq!(calculate_confidence(big, 0), 50);
    assert_eq!(calculate_confidence(big, 40), 60);
}

#[test]
fn enhanced_check_suspicious_message() {
    let earned = x(1_000_000_000_000_000_000_000_000);
    let (p, c, m) = enhanced_oracle_check(earned, x(0), w(ETHER * 1_000_000), 5).unwrap();
    assert_eq!(as_u128(&p), 1_000_000_000_000_000_000_000_000);
    assert_eq!(c, 70);
    assert_eq!(m, "Profit: 1 ETH (Confidence: 70%) [⚠️ REQUIRES MANUAL VERIFICATION]");
}

#[test]
fn enhanced_check_plain_message() {
    let earned = x(50_000_000_000_000_000_000_000);
    let (_, c, m) = enhanced_oracle_check(earned, x(0), w(ETHER * 1_000_000), 1).unwrap();
    assert_eq!(c, 80);
    assert_eq!(m, "Profit: 0 ETH (Confidence: 80%)");
}

#[test]
fn enhanced_check_rejected() {
    assert!(enhanced_oracle_check(x(1), x(2), w(0), 5).is_none());
}

#[test]
fn value_call_opcodes() {
    assert!(is_value_call(0xf1));
    assert!(is_value_call(0xf2));
    assert!(!is_value_call(0xf4));
    assert!(!is_value_call(0x00));
}

#[test]
fn tracker_credits_fuzzer_recipient() {
    let t = EthBalanceTracker::new();
    let mut earned = x(7);
    t.on_step(OP_CALL, w(5), addr(0x35), &mut earned);
    assert_eq!(as_u128(&earned), 5_000_007);
    t.on_step(OP_CALLCODE, w(ETHER), addr(0x8e), &mut earned);
    assert_eq!(as_u128(&earned), ETHER * 1_000_000 + 5_000_007);
}

#[test]
fn tracker_ignores_other_recipients_and_steps() {
    let t = EthBalanceTracker::new();
    let mut earned = x(7);
    t.on_step(OP_CALL, w(5), addr(0x11), &mut earned);
    t.on_step(0xf4, w(5), addr(0x35), &mut earned);
    t.on_step(OP_CALL, w(0), addr(0x35), &mut earned);
    assert_eq!(as_u128(&earned), 7);
}

#[test]
fn tracker_added_address_is_credited() {
    let mut t = EthBalanceTracker::new();
    assert!(!t.is_fuzzer_address(&addr(0x11)));
    t.add_fuzzer_address(addr(0x11));
    assert!(t.is_fuzzer_address(&addr(0x11)));
    assert!(t.is_fuzzer_address(&addr(0xe1)));
    assert!(t.is_fuzzer_address(&addr(0x68)));
    let mut earned = U512::zero();
    t.on_step(OP_CALL, w(3), addr(0x11), &mut earned);
    assert_eq!(as_u128(&earned), 3_000_000);
}

fn change(target_before: u128, target_after: u128, caller_before: u128, caller_after: u128) -> BalanceChange {
    BalanceChange {
        target: addr(0x11),
        caller: addr(0x22),
        target_before: w(target_before),
        target_after: w(target_after),
        caller_before: w(caller_before),
        caller_after: w(caller_after),
    }
}

#[test]
fn drain_below_floor_not_reported() {
    let mut oracle = BalanceDrainOracle::new();
    oracle.add_target(addr(0x11));
    let mut findings: Vec<BugResult> = Vec::new();
    let c = change(10 * ETHER, 10 * ETHER - ETHER / 10_000, 0, ETHER);
    assert!(oracle.oracle(&c, &mut findings).is_empty());
    assert!(findings.is_empty());
}

#[test]
fn drain_with_caller_gain_reported_once() {
    let oracle = BalanceDrainOracle::new();
    let mut findings: Vec<BugResult> = Vec::new();
    let c = change(10 * ETHER, 5 * ETHER, ETHER, ETHER + 49 * ETHER / 10);
    assert_eq!(oracle.oracle(&c, &mut findings), vec![BALANCE_DRAIN_BUG_ID]);
    assert_eq!(findings.len(), 1);
    let f = &findings[0];
    let t = format!("0x{}", "11".repeat(20));
    let a = format!("0x{}", "22".repeat(20));
    assert_eq!(f.name, "Balance Drain");
    assert_eq!(f.bug_id, 0x42424242);
    assert_eq!(
        f.description,
        format!("Contract {} balance drained by 5 ETH! Attacker {} profited 4 ETH", t, a)
    );
    assert_eq!(f.target_name.as_deref(), Some(t.as_str()));
}

#[test]
fn drain_without_beneficiary_not_reported() {
    let oracle = BalanceDrainOracle::new();
    let mut findings: Vec<BugResult> = Vec::new();
    let c = change(10 * ETHER, 5 * ETHER, ETHER, ETHER);
    assert!(oracle.oracle(&c, &mut findings).is_empty());
    let c = change(5 * ETHER, 10 * ETHER, 0, ETHER);
    assert!(oracle.oracle(&c, &mut findings).is_empty());
    assert!(findings.is_empty());
}

#[test]
fn reentrancy_nothing_found() {
    let oracle = ReentrancyOracle::new(Vec::new());
    let mut findings: Vec<BugResult> = Vec::new();
    assert!(oracle.oracle(&Vec::new(), x(5), x(1), &mut findings).is_empty());
    assert!(findings.is_empty());
}

#[test]
fn reentrancy_ids_stable_and_tagged() {
    let a = addr(0x11);
    let id1 = bug_id(&a, &w(3));
    let id2 = bug_id(&addr(0x11), &w(3));
    assert_eq!(id1, id2);
    assert_eq!(id1 & 0xff, REENTRANCY_BUG_IDX);
    assert_ne!(bug_id(&a, &w(3)), bug_id(&a, &w(4)));
}

#[test]
fn reentrancy_findings_and_names() {
    let oracle = ReentrancyOracle::new(vec![(addr(0x11), "Vault".to_string())]);
    let found = vec![(addr(0x11), w(7)), (addr(0x33), w(0))];
    let mut findings: Vec<BugResult> = Vec::new();
    let earned = x(1_500_000_000_000_000_000_000_000 + 7);
    let ids = oracle.oracle(&found, earned, x(7), &mut findings);
    assert_eq!(ids, vec![bug_id(&addr(0x11), &w(7)), bug_id(&addr(0x33), &w(0))]);
    assert_eq!(findings.len(), 2);
    assert_eq!(findings[0].name, "Reentrancy");
    assert_eq!(findings[0].bug_id, ids[0]);
    assert_eq!(
        findings[0].description,
        "Reentrancy vulnerability detected on contract 'Vault' at storage slot 7. This could allow draining of funds. PROFITABLE: Can earn 1.500000 ETH!"
    );
    assert_eq!(findings[0].target_name.as_deref(), Some("Vault"));
    let hex = format!("0x{}", "33".repeat(20));
    assert_eq!(findings[1].target_name.as_deref(), Some(hex.as_str()));
    assert_eq!(
        findings[1].description,
        format!("Reentrancy vulnerability detected on contract '{}' at storage slot 0. This could allow draining of funds. PROFITABLE: Can earn 1.500000 ETH!", hex)
    );
}

#[test]
fn reentrancy_evaluate_twice_identical() {
    let oracle = ReentrancyOracle::new(vec![(addr(0x11), "Vault".to_string())]);
    let found = vec![(addr(0x11), w(7)), (addr(0x44), w(1 << 100))];
    let mut f1: Vec<BugResult> = Vec::new();
    let mut f2: Vec<BugResult> = Vec::new();
    let r1 = oracle.oracle(&found, x(3), x(2), &mut f1);
    let r2 = oracle.oracle(&found, x(3), x(2), &mut f2);
    assert_eq!(r1, r2);
    assert_eq!(f1.len(), f2.len());
    for (a, b) in f1.iter().zip(f2.iter()) {
        assert_eq!(a.name, b.name);
        assert_eq!(a.bug_id, b.bug_id);
        assert_eq!(a.description, b.description);
        assert_eq!(a.target_name, b.target_name);
    }
}

#[test]
fn profitable_net_threshold() {
    let floor: u128 = 100_000_000_000_000_000_000;
    assert!(profitable_net(x(floor), x(0)).is_none());
    assert!(profitable_net(x(1), x(2)).is_none());
    let n = profitable_net(x(floor + 10), x(9)).unwrap();
    assert_eq!(as_u128(&n), floor + 1);
}

#[test]
fn profit_note_formats_six_decimals() {
    assert_eq!(profit_note(x(10), x(20)), "");
    assert_eq!(profit_note(x(100_000_000_000_000_000_000), x(0)), "");
    assert_eq!(
        profit_note(x(2_000_123_456_789_000_000_000_000), x(1_000_000_000_000_000_000_000_000)),
        " PROFITABLE: Can earn 1.000123 ETH!"
    );
    assert_eq!(
        profit_note(x(100_000_000_000_000_000_001), x(0)),
        " PROFITABLE: Can earn 0.000100 ETH!"
    );
}

#[test]
fn caller_mutation_stays_in_pool() {
    let pool = vec![addr(0x35), addr(0xe1), addr(0x68)];
    let seed = Candidate {
        caller: addr(0x99),
        contract: addr(0x11),
        value: Some(w(5)),
        liquidation_percent: None,
    };
    for draw in 0..10u64 {
        let c = mutate_caller(&seed, &pool, draw).unwrap();
        assert_eq!(c.caller.bytes, pool[(draw % 3) as usize].bytes);
        assert_eq!(c.contract.bytes, seed.contract.bytes);
    }
    assert!(mutate_caller(&seed, &Vec::new(), 4).is_none());
}
