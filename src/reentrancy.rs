//! Reporting of reentrancy observed during one execution.
use vstd::prelude::*;
use std::collections::hash_map::DefaultHasher;
use std::hash::{Hash, Hasher};
use revm_primitives::Address as RAddress;
use revm_primitives::U256 as RU256;
use crate::address::{address_text, Address};
use crate::finding::{spec_finding_is, BugResult};
use revm_primitives::alloy_primitives::U512 as RU512;
use crate::text::{decimal, digit_char, hex_text};
use crate::wide::{u512_div, u512_lt, u512_mul, u512_sub, u512_to_u64, U256, U512};

verus! {

/// Bug class of reentrancy, kept in the low byte of every reentrancy id.
pub const REENTRANCY_BUG_IDX: u64 = 9;

/// One ether in scaled wei.
pub const SCALED_ETHER: u128 = 1_000_000_000_000_000_000_000_000;

/// A millionth of an ether in scaled wei.
pub const MICRO_SCALED_ETHER: u128 = 1_000_000_000_000_000_000;

/// Net earnings (scaled wei) above which a reentrancy is reported as profitable.
pub const MIN_REPORTED_NET: u128 = 100_000_000_000_000_000_000;

/// What `DefaultHasher` yields after hashing an address and then a slot.
pub uninterp spec fn slot_fingerprint(addr: Seq<u8>, slot: nat) -> u64;

/// The bug id of a reentrancy on `slot` of `addr`: the fingerprint shifted
/// left by one byte, with the reentrancy class in the low byte.
pub open spec fn spec_bug_id(addr: Seq<u8>, slot: nat) -> u64 {
    ((slot_fingerprint(addr, slot) as nat % 0x100_0000_0000_0000) * 256 + REENTRANCY_BUG_IDX) as u64
}

/// The name given to the first entry for `addr` at or after index `i`.
pub open spec fn spec_name_from(names: Seq<(Address, String)>, addr: Seq<u8>, i: int) -> Option<Seq<char>>
    decreases names.len() - i,
{
    if i < 0 || i >= names.len() {
        None
    } else if names[i].0@ == addr {
        Some(names[i].1@)
    } else {
        spec_name_from(names, addr, i + 1)
    }
}

/// The name shown for `addr`: its registered name, else its hexadecimal form.
pub open spec fn spec_display_name(names: Seq<(Address, String)>, addr: Seq<u8>) -> Seq<char> {
    match spec_name_from(names, addr, 0) {
        Some(n) => n,
        None => hex_text(addr),
    }
}

pub open spec fn spec_reentrancy_description(name: Seq<char>, slot: nat, note: Seq<char>) -> Seq<char> {
    "Reentrancy vulnerability detected on contract '"@ + name + "' at storage slot "@ + decimal(slot)
        + ". This could allow draining of funds."@ + note
}

/// The net earnings worth a profit note: `earned - owed` when it exceeds
/// `MIN_REPORTED_NET`.
pub open spec fn spec_profitable_net(earned: nat, owed: nat) -> Option<nat> {
    if earned > owed && earned - owed > MIN_REPORTED_NET {
        Some((earned - owed) as nat)
    } else {
        None
    }
}

/// Six decimal digits of `n`, zero-padded on the left.
pub open spec fn six_digits(n: nat) -> Seq<char> {
    seq![
        digit_char(n / 100000 % 10),
        digit_char(n / 10000 % 10),
        digit_char(n / 1000 % 10),
        digit_char(n / 100 % 10),
        digit_char(n / 10 % 10),
        digit_char(n % 10),
    ]
}

/// The note appended to each reentrancy description: the net earnings in
/// ether with six decimals, when they are worth reporting.
pub open spec fn spec_profit_note(earned: nat, owed: nat) -> Seq<char> {
    match spec_profitable_net(earned, owed) {
        Some(net) => " PROFITABLE: Can earn "@ + decimal(net / SCALED_ETHER as nat) + "."@ + six_digits(
            (net / MICRO_SCALED_ETHER as nat) % 1_000_000,
        ) + " ETH!"@,
        None => ""@,
    }
}

/// Relies on the `Display` of ruint's `Uint` and the zero-padded `Display` of
/// `u64`.
#[verifier::external_body]
fn profit_note_text(whole: &U512, micro: u64) -> (r: String)
    requires
        micro < 1_000_000,
    ensures
        r@ == " PROFITABLE: Can earn "@ + decimal(whole.value()) + "."@ + six_digits(micro as nat)
            + " ETH!"@,
{
    format!(" PROFITABLE: Can earn {}.{:06} ETH!", RU512::from_limbs(whole.limbs), micro)
}

/// Relies on `DefaultHasher::new`, `Hash` of alloy's `Address` and of ruint's
/// `Uint`, and `Hasher::finish`: a fixed function of the address and slot.
#[verifier::external_body]
fn fingerprint(addr: &Address, slot: &U256) -> (r: u64)
    ensures
        r == slot_fingerprint(addr@, slot.value()),
{
    let mut hasher = DefaultHasher::new();
    RAddress::from(addr.bytes).hash(&mut hasher);
    RU256::from_limbs(slot.limbs).hash(&mut hasher);
    hasher.finish()
}

/// Relies on the `Debug` of ruint's `Uint`, which prints decimal digits.
#[verifier::external_body]
fn reentrancy_description(name: &String, slot: &U256, note: &str) -> (r: String)
    ensures
        r@ == spec_reentrancy_description(name@, slot.value(), note@),
{
    format!(
        "Reentrancy vulnerability detected on contract '{}' at storage slot {:?}. This could allow draining of funds.{}",
        name,
        RU256::from_limbs(slot.limbs),
        note
    )
}

/// The bug id of a reentrancy on `slot` of `addr`.
pub fn bug_id(addr: &Address, slot: &U256) -> (r: u64)
    ensures
        r == spec_bug_id(addr@, slot.value()),
{
    let h = fingerprint(addr, slot);
    (h % 0x100_0000_0000_0000) * 256 + REENTRANCY_BUG_IDX
}

/// The net earnings `earned - owed`, when they exceed `MIN_REPORTED_NET`.
pub fn profitable_net(earned: U512, owed: U512) -> (r: Option<U512>)
    ensures
        match spec_profitable_net(earned.value(), owed.value()) {
            None => r.is_none(),
            Some(n) => r.is_some() && r.unwrap().value() == n,
        },
{
    if !u512_lt(&owed, &earned) {
        return None;
    }
    let net = u512_sub(&earned, &owed);
    if u512_lt(&U512::from_u128(MIN_REPORTED_NET), &net) {
        Some(net)
    } else {
        None
    }
}

/// The note appended to each reentrancy description.
pub fn profit_note(earned: U512, owed: U512) -> (r: String)
    ensures
        r@ == spec_profit_note(earned.value(), owed.value()),
{
    match profitable_net(earned, owed) {
        None => "".to_owned(),
        Some(net) => {
            let whole = u512_div(&net, &U512::from_u128(SCALED_ETHER));
            let micros = u512_div(&net, &U512::from_u128(MICRO_SCALED_ETHER));
            let million = U512::from_u128(1_000_000);
            let whole_micros = u512_mul(&whole, &million);
            proof {
                let n = net.value();
                assert(n / (SCALED_ETHER as nat) * 1_000_000 <= n / (MICRO_SCALED_ETHER as nat)) by (nonlinear_arith)
                    requires SCALED_ETHER == MICRO_SCALED_ETHER * 1_000_000,
                ;
                crate::wide::lemma_u512_bound(net);
                assert(whole.value() * 1_000_000 < crate::wide::modulus512()) by (nonlinear_arith)
                    requires
                        whole.value() * 1_000_000 <= micros.value(),
                        micros.value() <= n,
                        n < crate::wide::modulus512(),
                ;
                assert(micros.value() % 1_000_000 == micros.value() - whole.value() * 1_000_000) by (nonlinear_arith)
                    requires
                        whole.value() == n / (SCALED_ETHER as nat),
                        micros.value() == n / (MICRO_SCALED_ETHER as nat),
                        SCALED_ETHER == MICRO_SCALED_ETHER * 1_000_000,
                ;
                vstd::arithmetic::div_mod::lemma_small_mod(
                    whole.value() * 1_000_000,
                    crate::wide::modulus512(),
                );
                assert(whole_micros.value() == whole.value() * 1_000_000);
            }
            let frac = u512_sub(&micros, &whole_micros);
            assert(frac.value() == micros.value() % 1_000_000);
            let micro = u512_to_u64(&frac);
            profit_note_text(&whole, micro)
        },
    }
}

/// Reports every (address, slot) pair found re-entered.
pub struct ReentrancyOracle {
    pub address_to_name: Vec<(Address, String)>,
}

impl ReentrancyOracle {
    /// An oracle that names contracts by the given table.
    pub fn new(address_to_name: Vec<(Address, String)>) -> (r: ReentrancyOracle)
        ensures
            r.address_to_name == address_to_name,
    {
        ReentrancyOracle { address_to_name }
    }

    /// The name shown for `addr`.
    pub fn display_name(&self, addr: &Address) -> (r: String)
        ensures
            r@ == spec_display_name(self.address_to_name@, addr@),
    {
        let names = &self.address_to_name;
        let mut i: usize = 0;
        while i < names.len()
            invariant
                i <= names.len(),
                names@ == self.address_to_name@,
                spec_name_from(names@, addr@, 0) == spec_name_from(names@, addr@, i as int),
            decreases names.len() - i,
        {
            if names[i].0.same(addr) {
                return names[i].1.clone();
            }
            i = i + 1;
        }
        address_text(addr)
    }

    /// Checks one execution given the pairs found re-entered, in order, and
    /// the execution's earned and owed totals. Appends one "Reentrancy"
    /// finding per pair to `findings`, each noting the net earnings when they
    /// are worth reporting, and returns their ids.
    pub fn oracle(&self, found: &Vec<(Address, U256)>, earned: U512, owed: U512, findings: &mut Vec<BugResult>) -> (r: Vec<u64>)
        ensures
            r@.len() == found@.len(),
            final(findings)@.len() == old(findings)@.len() + found@.len(),
            final(findings)@.subrange(0, old(findings)@.len() as int) == old(findings)@,
            forall|i: int|
                0 <= i < found@.len() ==> {
                    let addr = #[trigger] found@[i].0;
                    let slot = found@[i].1;
                    let name = spec_display_name(self.address_to_name@, addr@);
                    &&& r@[i] == spec_bug_id(addr@, slot.value())
                    &&& spec_finding_is(
                        final(findings)@[old(findings)@.len() + i],
                        "Reentrancy"@,
                        spec_bug_id(addr@, slot.value()),
                        spec_reentrancy_description(name, slot.value(), spec_profit_note(earned.value(), owed.value())),
                        name,
                    )
                },
    {
        let note = profit_note(earned, owed);
        let mut results: Vec<u64> = Vec::new();
        let mut k: usize = 0;
        while k < found.len()
            invariant
                k <= found@.len(),
                results@.len() == k,
                findings@.len() == old(findings)@.len() + k,
                note@ == spec_profit_note(earned.value(), owed.value()),
                findings@.subrange(0, old(findings)@.len() as int) == old(findings)@,
                forall|i: int|
                    0 <= i < k ==> {
                        let addr = #[trigger] found@[i].0;
                        let slot = found@[i].1;
                        let name = spec_display_name(self.address_to_name@, addr@);
                        &&& results@[i] == spec_bug_id(addr@, slot.value())
                        &&& spec_finding_is(
                            findings@[old(findings)@.len() + i],
                            "Reentrancy"@,
                            spec_bug_id(addr@, slot.value()),
                            spec_reentrancy_description(name, slot.value(), spec_profit_note(earned.value(), owed.value())),
                            name,
                        )
                    },
            decreases found@.len() - k,
        {
            let addr = &found[k].0;
            let slot = &found[k].1;
            let id = bug_id(addr, slot);
            let name = self.display_name(addr);
            let description = reentrancy_description(&name, slot, note.as_str());
            let finding = BugResult {
                name: "Reentrancy".to_owned(),
                bug_id: id,
                description,
                target_name: Some(name),
            };
            let ghost before = findings@;
            findings.push(finding);
            results.push(id);
            assert(findings@.subrange(0, old(findings)@.len() as int) =~= before.subrange(
                0,
                old(findings)@.len() as int,
            ));
            k = k + 1;
        }
        results
    }
}

/// Reentrancy ids are stable: the same address and slot always give the
/// same id, whatever else was found alongside them.
pub proof fn lemma_bug_id_stable(a1: Address, s1: U256, a2: Address, s2: U256)
    requires
        a1@ == a2@,
        s1.value() == s2.value(),
    ensures
        spec_bug_id(a1@, s1.value()) == spec_bug_id(a2@, s2.value()),
{
}

/// Whether two lists of found pairs hold the same addresses and slots in the
/// same order.
pub open spec fn spec_same_pairs(f1: Seq<(Address, U256)>, f2: Seq<(Address, U256)>) -> bool {
    &&& f1.len() == f2.len()
    &&& forall|i: int| 0 <= i < f1.len() ==> f1[i].0@ == f2[i].0@ && f1[i].1.value() == f2[i].1.value()
}

/// Evaluating twice on identical inputs gives identical reports: the ids,
/// names and descriptions that the reentrancy oracle promises for each
/// position depend only on the values of the found pairs, the name table
/// and the profit note.
pub proof fn lemma_reentrancy_report_deterministic(
    names: Seq<(Address, String)>,
    f1: Seq<(Address, U256)>,
    f2: Seq<(Address, U256)>,
    note: Seq<char>,
)
    requires
        spec_same_pairs(f1, f2),
    ensures
        forall|i: int|
            0 <= i < f1.len() ==> {
                &&& spec_bug_id(f1[i].0@, f1[i].1.value()) == spec_bug_id(f2[i].0@, f2[i].1.value())
                &&& spec_display_name(names, f1[i].0@) == spec_display_name(names, f2[i].0@)
                &&& spec_reentrancy_description(
                    spec_display_name(names, f1[i].0@),
                    f1[i].1.value(),
                    note,
                ) == spec_reentrancy_description(
                    spec_display_name(names, f2[i].0@),
                    f2[i].1.value(),
                    note,
                )
            },
{
}

} // verus!
