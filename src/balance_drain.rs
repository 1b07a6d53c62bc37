//! Detection of a contract whose balance is drained to the caller.
use vstd::prelude::*;
use revm_primitives::Address as RAddress;
use revm_primitives::U256 as RU256;
use crate::address::{address_text, Address};
use crate::finding::{spec_finding_is, BugResult};
use crate::text::{decimal, hex_text};
use crate::wide::{u256_div, u256_lt, u256_sub, U256};

verus! {

/// Identifier of every balance-drain finding.
pub const BALANCE_DRAIN_BUG_ID: u64 = 0x42424242;

/// A contract must lose more than this many wei (0.0001 ether) to count as drained.
pub const MIN_DRAIN_LOSS: u128 = 100_000_000_000_000;

/// Wei in one ether.
pub const WEI_PER_ETHER: u128 = 1_000_000_000_000_000_000;

/// Balances of the called contract and of the caller around one execution.
#[derive(Clone, Copy, Debug)]
pub struct BalanceChange {
    pub target: Address,
    pub caller: Address,
    pub target_before: U256,
    pub target_after: U256,
    pub caller_before: U256,
    pub caller_after: U256,
}

/// The target lost more than the floor and the caller gained.
pub open spec fn spec_is_drain(c: BalanceChange) -> bool {
    &&& c.target_after.value() < c.target_before.value()
    &&& c.target_before.value() - c.target_after.value() > MIN_DRAIN_LOSS
    &&& c.caller_before.value() < c.caller_after.value()
}

pub open spec fn spec_drain_description(c: BalanceChange) -> Seq<char> {
    let loss = (c.target_before.value() - c.target_after.value()) as nat;
    let profit = (c.caller_after.value() - c.caller_before.value()) as nat;
    "Contract "@ + hex_text(c.target@) + " balance drained by "@ + decimal(loss / WEI_PER_ETHER as nat)
        + " ETH! Attacker "@ + hex_text(c.caller@) + " profited "@ + decimal(
        profit / WEI_PER_ETHER as nat,
    ) + " ETH"@
}

/// Watches contracts for drained balances.
pub struct BalanceDrainOracle {
    target_addresses: Vec<Address>,
}

impl View for BalanceDrainOracle {
    type V = Seq<Seq<u8>>;

    /// The monitored contracts, in the order they were added.
    closed spec fn view(&self) -> Seq<Seq<u8>> {
        self.target_addresses@.map_values(|a: Address| a@)
    }
}

/// Relies on the `Debug` of alloy's `Address` and the `Display` of ruint's
/// `Uint`: lowercase hexadecimal after `0x`, and decimal digits.
#[verifier::external_body]
fn drain_description(target: &Address, loss_ether: &U256, caller: &Address, profit_ether: &U256) -> (r: String)
    ensures
        r@ == "Contract "@ + hex_text(target@) + " balance drained by "@ + decimal(loss_ether.value())
            + " ETH! Attacker "@ + hex_text(caller@) + " profited "@ + decimal(profit_ether.value())
            + " ETH"@,
{
    format!(
        "Contract {:?} balance drained by {} ETH! Attacker {:?} profited {} ETH",
        RAddress::from(target.bytes),
        RU256::from_limbs(loss_ether.limbs),
        RAddress::from(caller.bytes),
        RU256::from_limbs(profit_ether.limbs)
    )
}

impl BalanceDrainOracle {
    /// An oracle with no monitored contract.
    pub fn new() -> (r: BalanceDrainOracle)
        ensures
            r@ == Seq::<Seq<u8>>::empty(),
    {
        let r = BalanceDrainOracle { target_addresses: Vec::new() };
        assert(r@ =~= Seq::<Seq<u8>>::empty());
        r
    }

    /// Adds a contract to monitor.
    pub fn add_target(&mut self, addr: Address)
        ensures
            final(self)@ == old(self)@.push(addr@),
    {
        self.target_addresses.push(addr);
        assert(self@ =~= old(self)@.push(addr@));
    }

    /// Checks one execution. When the called contract lost more than
    /// `MIN_DRAIN_LOSS` and its caller gained, appends one "Balance Drain"
    /// finding to `findings` and returns its identifier; otherwise returns
    /// nothing and leaves `findings` as it was.
    pub fn oracle(&self, change: &BalanceChange, findings: &mut Vec<BugResult>) -> (r: Vec<u64>)
        ensures
            spec_is_drain(*change) ==> {
                &&& r@ == seq![BALANCE_DRAIN_BUG_ID]
                &&& final(findings)@.len() == old(findings)@.len() + 1
                &&& final(findings)@.subrange(0, old(findings)@.len() as int) == old(findings)@
                &&& spec_finding_is(
                    final(findings)@.last(),
                    "Balance Drain"@,
                    BALANCE_DRAIN_BUG_ID,
                    spec_drain_description(*change),
                    hex_text(change.target@),
                )
            },
            !spec_is_drain(*change) ==> r@ == Seq::<u64>::empty() && final(findings)@ == old(
                findings,
            )@,
    {
        let mut bugs: Vec<u64> = Vec::new();
        if !u256_lt(&change.target_after, &change.target_before) {
            return bugs;
        }
        let loss = u256_sub(&change.target_before, &change.target_after);
        if !u256_lt(&U256::from_u128(MIN_DRAIN_LOSS), &loss) {
            return bugs;
        }
        if !u256_lt(&change.caller_before, &change.caller_after) {
            return bugs;
        }
        let profit = u256_sub(&change.caller_after, &change.caller_before);
        let ether = U256::from_u128(WEI_PER_ETHER);
        let loss_ether = u256_div(&loss, &ether);
        let profit_ether = u256_div(&profit, &ether);
        let description = drain_description(&change.target, &loss_ether, &change.caller, &profit_ether);
        let finding = BugResult {
            name: "Balance Drain".to_owned(),
            bug_id: BALANCE_DRAIN_BUG_ID,
            description,
            target_name: Some(address_text(&change.target)),
        };
        findings.push(finding);
        bugs.push(BALANCE_DRAIN_BUG_ID);
        assert(findings@.subrange(0, old(findings)@.len() as int) =~= old(findings)@);
        assert(bugs@ =~= seq![BALANCE_DRAIN_BUG_ID]);
        bugs
    }
}

} // verus!
