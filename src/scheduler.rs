//! Power scheduling: how much mutation budget a corpus entry receives.
//!
//! Power is an integer energy, clamped to `[MIN_POWER, MAX_POWER]`.
use vstd::prelude::*;

verus! {

/// Weight of the votes-per-visit term.
pub const POWER_MULTIPLIER: u64 = 256;

/// Largest power.
pub const MAX_POWER: u64 = 25600;

/// Smallest power, also given to entries never executed.
pub const MIN_POWER: u64 = 4;

/// Weight of the state-change score.
pub const STATE_CHANGE_MULTIPLIER: u64 = 20000;

/// Weight of the call-count score.
pub const STATE_CHANGE_POWER_MULTIPLIER: u64 = 16;

/// Boost for entries that produced a profit.
pub const PROFIT_MULTIPLIER: u64 = 1000;

/// Profit (wei) above which an entry counts as profitable.
pub const PROFIT_THRESHOLD: u64 = 1_000_000_000_000_000_000;

pub open spec fn spec_clamp(x: int) -> int {
    if x < MIN_POWER {
        MIN_POWER as int
    } else if x > MAX_POWER {
        MAX_POWER as int
    } else {
        x
    }
}

/// Unclamped power of an entry that was executed at least once.
pub open spec fn spec_raw_power(
    votes: u64,
    visits: u64,
    state_change_score: u64,
    call_count_score: u64,
    profitable: bool,
) -> int {
    let base = POWER_MULTIPLIER * votes / visits as int + STATE_CHANGE_MULTIPLIER * state_change_score
        + STATE_CHANGE_POWER_MULTIPLIER * call_count_score;
    if profitable {
        base * PROFIT_MULTIPLIER
    } else {
        base
    }
}

pub open spec fn spec_power(
    votes: u64,
    visits: u64,
    state_change_score: u64,
    call_count_score: u64,
    profitable: bool,
) -> int {
    if visits == 0 {
        MIN_POWER as int
    } else {
        spec_clamp(spec_raw_power(votes, visits, state_change_score, call_count_score, profitable))
    }
}

/// Whether a profit (wei) makes its entry profitable.
pub fn is_profitable(profit: u64) -> (r: bool)
    ensures
        r == (profit > PROFIT_THRESHOLD),
{
    profit > PROFIT_THRESHOLD
}

/// The power of an entry from its votes, its visits, the state change and
/// call count of its originating execution, and whether it was profitable.
pub fn compute_power(
    votes: u64,
    visits: u64,
    state_change_score: u64,
    call_count_score: u64,
    profitable: bool,
) -> (r: u64)
    ensures
        r == spec_power(votes, visits, state_change_score, call_count_score, profitable),
        MIN_POWER <= r <= MAX_POWER,
{
    if visits == 0 {
        return MIN_POWER;
    }
    proof {
        assert(256 * (votes as int) <= 256 * 0xffff_ffff_ffff_ffff) by (nonlinear_arith)
            requires votes <= 0xffff_ffff_ffff_ffff,
        ;
    }
    let scaled_votes: u128 = (POWER_MULTIPLIER as u128) * (votes as u128);
    let per_visit: u128 = scaled_votes / (visits as u128);
    proof {
        let sv = scaled_votes as int;
        let v = visits as int;
        assert(sv / v <= sv) by (nonlinear_arith)
            requires
                v >= 1,
                sv >= 0,
        ;
        assert((STATE_CHANGE_MULTIPLIER as u128) * (state_change_score as u128) <= 20000 * 0xffff_ffff_ffff_ffff)
            by (nonlinear_arith)
            requires state_change_score <= 0xffff_ffff_ffff_ffff,
        ;
        assert((STATE_CHANGE_POWER_MULTIPLIER as u128) * (call_count_score as u128) <= 16 * 0xffff_ffff_ffff_ffff)
            by (nonlinear_arith)
            requires call_count_score <= 0xffff_ffff_ffff_ffff,
        ;
    }
    let base: u128 = per_visit + (STATE_CHANGE_MULTIPLIER as u128) * (state_change_score as u128)
        + (STATE_CHANGE_POWER_MULTIPLIER as u128) * (call_count_score as u128);
    proof {
        assert(base * 1000 <= 20272 * 0xffff_ffff_ffff_ffff * 1000) by (nonlinear_arith)
            requires base <= 20272 * 0xffff_ffff_ffff_ffff,
        ;
    }
    let raw: u128 = if profitable {
        base * (PROFIT_MULTIPLIER as u128)
    } else {
        base
    };
    if raw < MIN_POWER as u128 {
        MIN_POWER
    } else if raw > MAX_POWER as u128 {
        MAX_POWER
    } else {
        raw as u64
    }
}

/// Power never decreases as the state-change score grows, other inputs
/// fixed, and always lies within `[MIN_POWER, MAX_POWER]`.
pub proof fn lemma_power_monotone_in_state_change(
    votes: u64,
    visits: u64,
    s1: u64,
    s2: u64,
    call_count_score: u64,
    profitable: bool,
)
    requires
        s1 <= s2,
    ensures
        spec_power(votes, visits, s1, call_count_score, profitable) <= spec_power(
            votes,
            visits,
            s2,
            call_count_score,
            profitable,
        ),
        MIN_POWER <= spec_power(votes, visits, s1, call_count_score, profitable) <= MAX_POWER,
{
    if visits != 0 {
        let p = POWER_MULTIPLIER * votes / visits as int;
        let c = STATE_CHANGE_POWER_MULTIPLIER * call_count_score;
        assert(STATE_CHANGE_MULTIPLIER * s1 <= STATE_CHANGE_MULTIPLIER * s2) by (nonlinear_arith)
            requires s1 <= s2,
        ;
        let b1 = p + STATE_CHANGE_MULTIPLIER * s1 + c;
        let b2 = p + STATE_CHANGE_MULTIPLIER * s2 + c;
        assert(b1 * PROFIT_MULTIPLIER <= b2 * PROFIT_MULTIPLIER) by (nonlinear_arith)
            requires b1 <= b2,
        ;
    }
}

/// An entry never executed gets the minimum power, never zero.
pub proof fn lemma_unvisited_power(votes: u64, state_change_score: u64, call_count_score: u64, profitable: bool)
    ensures
        spec_power(votes, 0, state_change_score, call_count_score, profitable) == MIN_POWER,
        MIN_POWER > 0,
{
}

/// Sum of the first `n` powers.
pub open spec fn spec_power_prefix(powers: Seq<u64>, n: int) -> nat
    decreases n,
{
    if n <= 0 {
        0
    } else {
        spec_power_prefix(powers, n - 1) + powers[n - 1] as nat
    }
}

/// Picks an entry with probability proportional to its power, given a
/// uniform `draw`: the entry whose range `[p0 + .. + p(i-1), p0 + .. + pi)`
/// holds `draw` modulo the total power. Entries of zero power are never
/// picked; with no power at all nothing is.
pub fn weighted_pick(powers: &Vec<u64>, draw: u64) -> (r: Option<usize>)
    ensures
        r.is_none() <==> spec_power_prefix(powers@, powers@.len() as int) == 0,
        r matches Some(i) ==> {
            let total = spec_power_prefix(powers@, powers@.len() as int);
            &&& i < powers@.len()
            &&& spec_power_prefix(powers@, i as int) <= draw as nat % total
            &&& draw as nat % total < spec_power_prefix(powers@, i + 1)
        },
{
    let mut total: u128 = 0;
    let mut i: usize = 0;
    while i < powers.len()
        invariant
            i <= powers@.len(),
            total == spec_power_prefix(powers@, i as int),
            total <= i * 0xffff_ffff_ffff_ffff,
        decreases powers@.len() - i,
    {
        proof {
            assert(i * 0xffff_ffff_ffff_ffff + 0xffff_ffff_ffff_ffff <= 0xffff_ffff_ffff_ffff_ffff_ffff_ffff_ffff)
                by (nonlinear_arith)
                requires i < 0xffff_ffff_ffff_ffff,
            ;
            assert((i + 1) * 0xffff_ffff_ffff_ffff == i * 0xffff_ffff_ffff_ffff + 0xffff_ffff_ffff_ffff)
                by (nonlinear_arith);
        }
        total = total + powers[i] as u128;
        i = i + 1;
    }
    if total == 0 {
        return None;
    }
    let target: u128 = (draw as u128) % total;
    let mut acc: u128 = 0;
    let mut j: usize = 0;
    while j < powers.len()
        invariant
            j <= powers@.len(),
            total == spec_power_prefix(powers@, powers@.len() as int),
            target == draw as nat % (total as nat),
            acc == spec_power_prefix(powers@, j as int),
            acc <= target,
        decreases powers@.len() - j,
    {
        proof {
            lemma_power_prefix_monotone(powers@, j + 1, powers@.len() as int);
        }
        acc = acc + powers[j] as u128;
        if target < acc {
            return Some(j);
        }
        j = j + 1;
    }
    proof {
        assert(acc == total);
    }
    None
}

/// Prefix sums of powers never decrease.
pub proof fn lemma_power_prefix_monotone(powers: Seq<u64>, a: int, b: int)
    requires
        0 <= a <= b <= powers.len(),
    ensures
        spec_power_prefix(powers, a) <= spec_power_prefix(powers, b),
    decreases b - a,
{
    if a < b {
        lemma_power_prefix_monotone(powers, a, b - 1);
    }
}

} // verus!
