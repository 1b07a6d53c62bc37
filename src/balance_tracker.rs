//! Accounting of value that reaches fuzzer-controlled addresses.
use vstd::prelude::*;
use crate::address::{contains_address, Address};
use crate::wide::{modulus256, modulus512, u256_lt, u512_add, u512_mul, U256, U512};

verus! {

/// Opcode of `CALL`.
pub const OP_CALL: u8 = 0xf1;

/// Opcode of `CALLCODE`.
pub const OP_CALLCODE: u8 = 0xf2;

/// Factor by which a transferred amount is scaled when it is credited.
pub const EARNED_SCALE: u128 = 1_000_000;

/// Whether an opcode may transfer value to another account.
pub open spec fn spec_is_value_call(opcode: u8) -> bool {
    opcode == OP_CALL || opcode == OP_CALLCODE
}

/// What a step credits to the earned total: the scaled amount when the step
/// is a call moving a positive amount to an address of the pool, else zero.
pub open spec fn spec_credit(pool: Seq<Seq<u8>>, opcode: u8, value: nat, recipient: Seq<u8>) -> nat {
    if spec_is_value_call(opcode) && value > 0 && pool.contains(recipient) {
        value * (EARNED_SCALE as nat)
    } else {
        0
    }
}

/// Tracks value transfers to the addresses that the fuzzer controls.
pub struct EthBalanceTracker {
    fuzzer_addresses: Vec<Address>,
}

impl View for EthBalanceTracker {
    type V = Seq<Seq<u8>>;

    /// The fuzzer-controlled addresses, in the order they were added.
    closed spec fn view(&self) -> Seq<Seq<u8>> {
        self.fuzzer_addresses@.map_values(|a: Address| a@)
    }
}

/// Whether an opcode may transfer value to another account.
pub fn is_value_call(opcode: u8) -> (r: bool)
    ensures
        r == spec_is_value_call(opcode),
{
    opcode == OP_CALL || opcode == OP_CALLCODE
}

impl EthBalanceTracker {
    /// A tracker that knows the four default fuzzer addresses.
    pub fn new() -> (r: EthBalanceTracker)
        ensures
            r@ == seq![
                Seq::new(20, |i: int| 0x35u8),
                Seq::new(20, |i: int| 0xe1u8),
                Seq::new(20, |i: int| 0x68u8),
                Seq::new(20, |i: int| 0x8eu8),
            ],
    {
        let mut v: Vec<Address> = Vec::new();
        v.push(Address::repeat_byte(0x35));
        v.push(Address::repeat_byte(0xe1));
        v.push(Address::repeat_byte(0x68));
        v.push(Address::repeat_byte(0x8e));
        let r = EthBalanceTracker { fuzzer_addresses: v };
        assert(r@ =~= seq![
            Seq::new(20, |i: int| 0x35u8),
            Seq::new(20, |i: int| 0xe1u8),
            Seq::new(20, |i: int| 0x68u8),
            Seq::new(20, |i: int| 0x8eu8),
        ]);
        r
    }

    /// Adds an address to the fuzzer-controlled pool.
    pub fn add_fuzzer_address(&mut self, addr: Address)
        ensures
            final(self)@ == old(self)@.push(addr@),
    {
        self.fuzzer_addresses.push(addr);
        assert(self@ =~= old(self)@.push(addr@));
    }

    /// Whether `addr` is one of the fuzzer-controlled addresses.
    pub fn is_fuzzer_address(&self, addr: &Address) -> (r: bool)
        ensures
            r == self@.contains(addr@),
    {
        contains_address(&self.fuzzer_addresses, addr)
    }

    /// Observes one interpreter step: a `CALL` or `CALLCODE` that moves a
    /// positive `value` to a fuzzer-controlled `recipient` adds
    /// `value * EARNED_SCALE` to `earned` (modulo `2^512`); any other step
    /// leaves it as it was.
    pub fn on_step(&self, opcode: u8, value: U256, recipient: Address, earned: &mut U512)
        ensures
            final(earned).value() == (old(earned).value() + spec_credit(
                self@,
                opcode,
                value.value(),
                recipient@,
            )) % modulus512(),
    {
        proof {
            crate::wide::lemma_u512_bound(*old(earned));
            vstd::arithmetic::div_mod::lemma_small_mod(old(earned).value(), modulus512());
        }
        if !is_value_call(opcode) {
            return;
        }
        if !u256_lt(&U256::zero(), &value) {
            return;
        }
        if !self.is_fuzzer_address(&recipient) {
            return;
        }
        let scale = U512::from_u128(EARNED_SCALE);
        let wide_value = U512::from_u256(&value);
        let credit = u512_mul(&wide_value, &scale);
        proof {
            crate::wide::lemma_u256_bound(value);
            crate::wide::lemma_modulus512();
            assert(wide_value.value() * scale.value() < modulus512()) by (nonlinear_arith)
                requires
                    wide_value.value() < modulus256(),
                    scale.value() == EARNED_SCALE,
                    modulus512() == modulus256() * modulus256(),
                    modulus256() > EARNED_SCALE,
            ;
        }
        *earned = u512_add(earned, &credit);
    }
}

/// A value-carrying call to a fuzzer-controlled address credits the scaled
/// amount; a call to any other address credits nothing.
pub proof fn lemma_credit_only_to_fuzzer(pool: Seq<Seq<u8>>, value: nat, recipient: Seq<u8>)
    requires
        value > 0,
    ensures
        pool.contains(recipient) ==> spec_credit(pool, OP_CALL, value, recipient) == value
            * EARNED_SCALE,
        !pool.contains(recipient) ==> spec_credit(pool, OP_CALL, value, recipient) == 0,
{
}

} // verus!
