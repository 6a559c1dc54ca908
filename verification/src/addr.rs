//! 32-byte account addresses, the currency of the authority model.

use vstd::prelude::*;

verus! {

broadcast use vstd::array::group_array_axioms;

/// A 32-byte ledger address.  Pool records, authorities, mints and stake
/// records are all identified by such an address; the controller's security
/// model rests on comparing supplied addresses against re-derived ones.
#[derive(Clone, Copy, Debug)]
pub struct Address {
    pub bytes: [u8; 32],
}

impl View for Address {
    type V = Seq<u8>;

    open spec fn view(&self) -> Seq<u8> {
        self.bytes@
    }
}

impl PartialEq for Address {
    fn eq(&self, other: &Address) -> (r: bool) {
        let mut i: usize = 0;
        while i < 32
            invariant
                i <= 32,
                forall|j: int| 0 <= j < i ==> self.bytes@[j] == other.bytes@[j],
            decreases 32 - i,
        {
            if self.bytes[i] != other.bytes[i] {
                assert(self.bytes@[i as int] != other.bytes@[i as int]);
                return false;
            }
            i += 1;
        }
        proof {
            assert(self.bytes@ =~= other.bytes@);
        }
        true
    }
}

impl Eq for Address {}

impl vstd::std_specs::cmp::PartialEqSpecImpl for Address {
    open spec fn obeys_eq_spec() -> bool {
        true
    }

    open spec fn eq_spec(&self, other: &Address) -> bool {
        self@ == other@
    }
}

impl Address {
    /// The all-zero address that fills the unset slots of a fresh record.
    pub fn zeroed() -> (r: Address)
        ensures
            r@ == zero_address(),
    {
        let a = Address { bytes: [0u8; 32] };
        proof {
            assert(a@ =~= zero_address());
        }
        a
    }

    /// Copies 32 bytes out of `src` starting at `off`.
    pub fn from_slice_at(src: &Vec<u8>, off: usize) -> (r: Address)
        requires
            off + 32 <= src@.len(),
        ensures
            r@ == src@.subrange(off as int, off + 32),
    {
        let n = src.len();
        let mut bytes = [0u8; 32];
        let mut i: usize = 0;
        while i < 32
            invariant
                i <= 32,
                off + 32 <= n == src@.len(),
                forall|j: int| 0 <= j < i ==> bytes@[j] == src@[off + j],
            decreases 32 - i,
        {
            bytes[i] = src[off + i];
            i += 1;
        }
        let r = Address { bytes };
        proof {
            assert(r@ =~= src@.subrange(off as int, off + 32));
        }
        r
    }

    /// The address bytes as a growable vector, for seed lists.
    pub fn to_vec(&self) -> (r: Vec<u8>)
        ensures
            r@ == self@,
    {
        let mut v: Vec<u8> = Vec::new();
        let mut i: usize = 0;
        while i < 32
            invariant
                i <= 32,
                v@.len() == i,
                forall|j: int| 0 <= j < i ==> v@[j] == self.bytes@[j],
            decreases 32 - i,
        {
            v.push(self.bytes[i]);
            i += 1;
        }
        proof {
            assert(v@ =~= self@);
        }
        v
    }
}

/// The view of the all-zero address.
pub open spec fn zero_address() -> Seq<u8> {
    Seq::new(32, |i: int| 0u8)
}

} // verus!
