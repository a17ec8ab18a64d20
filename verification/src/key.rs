use vstd::prelude::*;

verus! {

/// A 32-byte account address.
#[derive(Clone, Copy, Debug)]
pub struct Key {
    pub bytes: [u8; 32],
}

impl Key {
    /// Whether all 32 bytes are zero.
    pub open spec fn is_zero(self) -> bool {
        self.bytes@ == Seq::new(32, |_i: int| 0u8)
    }

    /// The key whose bytes are all zero.
    pub fn zero() -> (k: Key)
        ensures
            k.is_zero(),
    {
        let k = Key { bytes: [0u8; 32] };
        assert(k.bytes@ =~= Seq::new(32, |_i: int| 0u8));
        k
    }

    /// The address whose 32 bytes are `bytes`.
    pub fn new(bytes: [u8; 32]) -> (k: Key)
        ensures
            k.bytes@ == bytes@,
    {
        Key { bytes }
    }

    /// Whether two addresses have the same bytes.
    pub fn same(&self, other: &Key) -> (r: bool)
        ensures
            r == (self.bytes@ == other.bytes@),
    {
        let mut i: usize = 0;
        while i < 32
            invariant
                0 <= i <= 32,
                self.bytes@.len() == 32,
                other.bytes@.len() == 32,
                forall|j: int| 0 <= j < i ==> self.bytes@[j] == other.bytes@[j],
            decreases 32 - i,
        {
            if self.bytes[i] != other.bytes[i] {
                return false;
            }
            i = i + 1;
        }
        assert(self.bytes@ =~= other.bytes@);
        true
    }
}

impl PartialEq for Key {
    fn eq(&self, other: &Key) -> (r: bool) {
        self.same(other)
    }
}

impl vstd::std_specs::cmp::PartialEqSpecImpl for Key {
    open spec fn obeys_eq_spec() -> bool {
        true
    }

    open spec fn eq_spec(&self, other: &Key) -> bool {
        self.bytes@ == other.bytes@
    }
}

impl Eq for Key {}

} // verus!
