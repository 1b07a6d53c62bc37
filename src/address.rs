//! 20-byte account addresses.
use vstd::prelude::*;
use revm_primitives::Address as RAddress;
use crate::text::hex_text;

verus! {

/// An account or contract address, as its 20 bytes.
#[derive(Clone, Copy, Debug)]
pub struct Address {
    pub bytes: [u8; 20],
}

impl View for Address {
    type V = Seq<u8>;

    open spec fn view(&self) -> Seq<u8> {
        self.bytes@
    }
}

impl Address {
    /// The address whose 20 bytes all equal `b`.
    pub fn repeat_byte(b: u8) -> (r: Address)
        ensures
            r@ == Seq::new(20, |i: int| b),
    {
        let r = Address { bytes: [b; 20] };
        assert(r@ =~= Seq::new(20, |i: int| b));
        r
    }

    /// Whether two addresses hold the same bytes.
    pub fn same(&self, other: &Address) -> (r: bool)
        ensures
            r == (self@ == other@),
    {
        let mut i: usize = 0;
        while i < 20
            invariant
                i <= 20,
                self@.len() == 20,
                other@.len() == 20,
                forall|j: int| 0 <= j < i ==> self@[j] == other@[j],
            decreases 20 - i,
        {
            if self.bytes[i] != other.bytes[i] {
                return false;
            }
            i = i + 1;
        }
        assert(self@ =~= other@);
        true
    }
}

/// Whether `a` occurs in `pool`.
pub fn contains_address(pool: &Vec<Address>, a: &Address) -> (r: bool)
    ensures
        r == pool@.map_values(|x: Address| x@).contains(a@),
{
    let ghost views = pool@.map_values(|x: Address| x@);
    let mut i: usize = 0;
    while i < pool.len()
        invariant
            i <= pool.len(),
            views == pool@.map_values(|x: Address| x@),
            forall|j: int| 0 <= j < i ==> views[j] != a@,
        decreases pool.len() - i,
    {
        if pool[i].same(a) {
            assert(views[i as int] == a@);
            return true;
        }
        i = i + 1;
    }
    assert(!views.contains(a@));
    false
}

/// Relies on the `Debug` of alloy's `Address`: `0x` and forty lowercase
/// hexadecimal digits.
#[verifier::external_body]
pub(crate) fn address_text(a: &Address) -> (r: String)
    ensures
        r@ == hex_text(a@),
{
    format!("{:?}", RAddress::from(a.bytes))
}

} // verus!
