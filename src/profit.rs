//! Profit sanity checks that keep implausible findings out of the report.
//!
//! Amounts are in wei scaled by the balance tracker's factor, so the
//! thresholds below are the scaled forms of whole-ether amounts.
use vstd::prelude::*;
use revm_primitives::alloy_primitives::U512 as RU512;
use crate::text::decimal;
use crate::wide::{u512_div, u512_lt, u512_mul, u512_sub, U256, U512};

verus! {

/// Largest profit that is still believed; anything above is a false positive.
pub const MAX_REASONABLE_PROFIT: u128 = 1_000_000_000_000_000_000_000_000;

/// Profit above which a finding needs manual verification.
pub const SUSPICIOUS_PROFIT_THRESHOLD: u128 = 100_000_000_000_000_000_000_000;

/// Smallest profit that is reported.
pub const MIN_PROFIT_THRESHOLD: u128 = 10_000_000_000_000_000_000;

/// A profit may be at most this many times the contract's initial balance.
pub const LEVERAGE_CAP: u128 = 10;

/// One ether in scaled units, for display.
pub const SCALED_ETHER: u128 = 1_000_000_000_000_000_000_000_000;

/// Confidence below which a finding is flagged as low confidence.
pub const LOW_CONFIDENCE: u8 = 70;

pub open spec fn spec_is_reasonable_profit(profit: nat) -> bool {
    MIN_PROFIT_THRESHOLD <= profit <= MAX_REASONABLE_PROFIT
}

/// The validated profit and whether it is suspicious, or `None` when the
/// profit does not survive the sanity checks.
pub open spec fn spec_validate_profit(earned: nat, owed: nat, initial_balance: nat) -> Option<(nat, bool)> {
    if earned <= owed {
        None
    } else {
        let profit = (earned - owed) as nat;
        if !spec_is_reasonable_profit(profit) {
            None
        } else if profit > LEVERAGE_CAP * initial_balance {
            None
        } else {
            Some((profit, profit > SUSPICIOUS_PROFIT_THRESHOLD))
        }
    }
}

pub open spec fn spec_confidence(profit: nat, execution_steps: nat) -> nat {
    (100 - (if profit > SUSPICIOUS_PROFIT_THRESHOLD { 30int } else { 0int }) - (
    if execution_steps < 3 {
        20int
    } else {
        0int
    }) - (if execution_steps > 10 { 10int } else { 0int })) as nat
}

/// The note appended to a profit report.
pub open spec fn spec_warning(is_suspicious: bool, confidence: nat) -> Seq<char> {
    if is_suspicious {
        " [⚠️ REQUIRES MANUAL VERIFICATION]"@
    } else if confidence < LOW_CONFIDENCE {
        " [LOW CONFIDENCE]"@
    } else {
        ""@
    }
}

pub open spec fn spec_profit_message(profit_ether: nat, confidence: nat, warning: Seq<char>) -> Seq<char> {
    "Profit: "@ + decimal(profit_ether) + " ETH (Confidence: "@ + decimal(confidence) + "%)"@ + warning
}

/// Whether a profit lies between the reporting floor and the plausibility cap.
pub fn is_reasonable_profit(profit: U512) -> (r: bool)
    ensures
        r == spec_is_reasonable_profit(profit.value()),
{
    let max = U512::from_u128(MAX_REASONABLE_PROFIT);
    if u512_lt(&max, &profit) {
        return false;
    }
    let min = U512::from_u128(MIN_PROFIT_THRESHOLD);
    if u512_lt(&profit, &min) {
        return false;
    }
    true
}

/// Net profit `earned - owed` with its suspicious flag, when it is positive,
/// plausible and within the leverage cap on the initial balance.
pub fn validate_profit(earned: U512, owed: U512, initial_balance: U256) -> (r: Option<(U512, bool)>)
    ensures
        match spec_validate_profit(earned.value(), owed.value(), initial_balance.value()) {
            None => r.is_none(),
            Some((p, s)) => r.is_some() && r.unwrap().0.value() == p && r.unwrap().1 == s,
        },
{
    if !u512_lt(&owed, &earned) {
        return None;
    }
    let profit = u512_sub(&earned, &owed);
    if !is_reasonable_profit(profit) {
        return None;
    }
    let suspicious = u512_lt(&U512::from_u128(SUSPICIOUS_PROFIT_THRESHOLD), &profit);
    let initial = U512::from_u256(&initial_balance);
    let cap = U512::from_u128(LEVERAGE_CAP);
    let max_possible = u512_mul(&initial, &cap);
    proof {
        crate::wide::lemma_u256_bound(initial_balance);
        crate::wide::lemma_modulus512();
        assert(initial.value() * 10 < crate::wide::modulus512()) by (nonlinear_arith)
            requires
                initial.value() < crate::wide::modulus256(),
                crate::wide::modulus512() == crate::wide::modulus256() * crate::wide::modulus256(),
                crate::wide::modulus256() > 16,
        ;
    }
    if u512_lt(&max_possible, &profit) {
        return None;
    }
    Some((profit, suspicious))
}

/// Confidence in `[0, 100]`, lowered for very large profits and for very
/// short or very long exploit sequences.
pub fn calculate_confidence(profit: U512, execution_steps: usize) -> (r: u8)
    ensures
        r == spec_confidence(profit.value(), execution_steps as nat),
        r <= 100,
{
    let mut confidence: u8 = 100;
    if u512_lt(&U512::from_u128(SUSPICIOUS_PROFIT_THRESHOLD), &profit) {
        confidence = confidence - 30;
    }
    if execution_steps < 3 {
        confidence = confidence - 20;
    }
    if execution_steps > 10 {
        confidence = confidence - 10;
    }
    confidence
}

/// Relies on the `Display` of ruint's `Uint` and of `u8`: decimal digits
/// without leading zeros.
#[verifier::external_body]
fn profit_message(profit_ether: &U512, confidence: u8, warning: &str) -> (r: String)
    ensures
        r@ == spec_profit_message(profit_ether.value(), confidence as nat, warning@),
{
    let p = RU512::from_limbs(profit_ether.limbs);
    format!("Profit: {} ETH (Confidence: {}%){}", p, confidence, warning)
}

/// Validated profit, confidence and report line, or `None` when the profit
/// fails the sanity checks.
pub fn enhanced_oracle_check(
    earned: U512,
    owed: U512,
    initial_balance: U256,
    execution_steps: usize,
) -> (r: Option<(U512, u8, String)>)
    ensures
        match spec_validate_profit(earned.value(), owed.value(), initial_balance.value()) {
            None => r.is_none(),
            Some((p, s)) => r.is_some() && r.unwrap().0.value() == p && r.unwrap().1
                == spec_confidence(p, execution_steps as nat) && r.unwrap().2@ == spec_profit_message(
                p / SCALED_ETHER as nat,
                spec_confidence(p, execution_steps as nat),
                spec_warning(s, spec_confidence(p, execution_steps as nat)),
            ),
        },
{
    let (profit, is_suspicious) = match validate_profit(earned, owed, initial_balance) {
        Some(v) => v,
        None => return None,
    };
    let confidence = calculate_confidence(profit, execution_steps);
    let warning = if is_suspicious {
        " [⚠️ REQUIRES MANUAL VERIFICATION]"
    } else if confidence < LOW_CONFIDENCE {
        " [LOW CONFIDENCE]"
    } else {
        ""
    };
    let profit_ether = u512_div(&profit, &U512::from_u128(SCALED_ETHER));
    let message = profit_message(&profit_ether, confidence, warning);
    Some((profit, confidence, message))
}


/// Sanity of validated profits: nothing is validated when `earned <= owed`
/// or when the net profit exceeds the leverage cap on the initial balance,
/// and a validated profit is flagged suspicious exactly when it exceeds the
/// suspicious-profit threshold.
pub proof fn lemma_validate_profit_sanity(earned: nat, owed: nat, initial_balance: nat)
    ensures
        earned <= owed ==> spec_validate_profit(earned, owed, initial_balance).is_none(),
        earned > owed && earned - owed > LEVERAGE_CAP * initial_balance ==> spec_validate_profit(
            earned,
            owed,
            initial_balance,
        ).is_none(),
        spec_validate_profit(earned, owed, initial_balance) matches Some((p, s)) ==> p == earned
            - owed && s == (p > SUSPICIOUS_PROFIT_THRESHOLD),
{
}

} // verus!
