//! Candidate transactions and the caller-substitution mutation.
use vstd::prelude::*;
use crate::address::Address;
use crate::wide::U256;

verus! {

/// A call to submit to the virtual machine.
#[derive(Clone, Copy, Debug)]
pub struct Candidate {
    pub caller: Address,
    pub contract: Address,
    /// Native currency attached to the call.
    pub value: Option<U256>,
    pub liquidation_percent: Option<u8>,
}

/// The addresses of a pool, as byte sequences.
pub open spec fn pool_view(pool: Seq<Address>) -> Seq<Seq<u8>> {
    pool.map_values(|a: Address| a@)
}

/// Replaces the caller of `candidate` by the pool address that `draw`
/// selects (`draw` modulo the pool size), keeping the other fields. With an
/// empty pool no candidate is produced, so the caller of a produced
/// candidate is always a fuzzer-controlled address.
pub fn mutate_caller(candidate: &Candidate, pool: &Vec<Address>, draw: u64) -> (r: Option<Candidate>)
    ensures
        pool@.len() == 0 <==> r.is_none(),
        r matches Some(c) ==> {
            &&& c.caller@ == pool@[(draw as nat % pool@.len()) as int]@
            &&& pool_view(pool@).contains(c.caller@)
            &&& c.contract == candidate.contract
            &&& c.value == candidate.value
            &&& c.liquidation_percent == candidate.liquidation_percent
        },
{
    let n = pool.len();
    if n == 0 {
        return None;
    }
    let i = (draw % (n as u64)) as usize;
    let caller = pool[i];
    assert(pool_view(pool@)[i as int] == caller@);
    Some(Candidate { caller, ..*candidate })
}

/// The mutation strategies, in the order in which their ranges of the
/// draw are laid out.
#[derive(Clone, Copy, Debug, PartialEq, Eq)]
pub enum Strategy {
    Liquidation,
    AbiField,
    Caller,
    TurnToStep,
    Borrow,
    Randomness,
    Havoc,
}

/// Position of a strategy in the layout of the ranges.
pub open spec fn strategy_index(s: Strategy) -> int {
    match s {
        Strategy::Liquidation => 0,
        Strategy::AbiField => 1,
        Strategy::Caller => 2,
        Strategy::TurnToStep => 3,
        Strategy::Borrow => 4,
        Strategy::Randomness => 5,
        Strategy::Havoc => 6,
    }
}

/// Sum of the first `n` weights.
pub open spec fn spec_cumulative(weights: Seq<u64>, n: int) -> nat
    decreases n,
{
    if n <= 0 {
        0
    } else {
        spec_cumulative(weights, n - 1) + weights[n - 1] as nat
    }
}

fn strategy_at(i: usize) -> (r: Strategy)
    requires
        i < 7,
    ensures
        strategy_index(r) == i,
{
    if i == 0 {
        Strategy::Liquidation
    } else if i == 1 {
        Strategy::AbiField
    } else if i == 2 {
        Strategy::Caller
    } else if i == 3 {
        Strategy::TurnToStep
    } else if i == 4 {
        Strategy::Borrow
    } else if i == 5 {
        Strategy::Randomness
    } else {
        Strategy::Havoc
    }
}

/// Picks the strategy whose range holds `draw`: strategy `i` owns
/// `[w0 + .. + w(i-1), w0 + .. + wi)`. A draw beyond every range but the
/// last falls to havoc.
pub fn select_strategy(weights: &[u64; 7], draw: u64) -> (r: Strategy)
    ensures
        0 <= strategy_index(r) < 7,
        forall|j: int| 0 <= j < strategy_index(r) ==> draw >= #[trigger] spec_cumulative(weights@, j + 1),
        strategy_index(r) < 6 ==> draw < spec_cumulative(weights@, strategy_index(r) + 1),
{
    let mut acc: u128 = 0;
    let mut i: usize = 0;
    while i < 6
        invariant
            i <= 6,
            weights@.len() == 7,
            acc == spec_cumulative(weights@, i as int),
            acc <= i * 0xffff_ffff_ffff_ffff,
            forall|j: int| 0 <= j < i ==> draw >= #[trigger] spec_cumulative(weights@, j + 1),
        decreases 6 - i,
    {
        acc = acc + weights[i] as u128;
        if (draw as u128) < acc {
            return strategy_at(i);
        }
        i = i + 1;
    }
    strategy_at(6)
}

} // verus!
