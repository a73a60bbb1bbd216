use vstd::prelude::*;

verus! {

/// The identity of an account, a wallet or a program: thirty-two bytes.
#[derive(Clone, Copy, Debug, Eq, Hash)]
pub struct Address {
    pub bytes: [u8; 32],
}

impl View for Address {
    type V = Seq<u8>;

    open spec fn view(&self) -> Seq<u8> {
        self.bytes@
    }
}

impl PartialEq for Address {
    fn eq(&self, other: &Address) -> (r: bool) {
        let mut i: usize = 0;
        while i < 32
            invariant
                i <= 32,
                forall|j: int| 0 <= j < i ==> self.bytes[j] == other.bytes[j],
            decreases 32 - i,
        {
            if self.bytes[i] != other.bytes[i] {
                return false;
            }
            i += 1;
        }
        proof {
            assert(self.bytes@ =~= other.bytes@);
            assert(self.bytes == other.bytes);
        }
        true
    }
}

impl vstd::std_specs::cmp::PartialEqSpecImpl for Address {
    open spec fn obeys_eq_spec() -> bool {
        true
    }

    open spec fn eq_spec(&self, other: &Address) -> bool {
        *self == *other
    }
}

impl Address {
    /// The address whose bytes are `bytes`, for a sequence of thirty-two.
    pub open spec fn from_view(bytes: Seq<u8>) -> Address {
        Address { bytes: choose|b: [u8; 32]| b@ == bytes }
    }

    /// An address is determined by its bytes.
    pub proof fn lemma_from_view(self)
        ensures
            Address::from_view(self@) == self,
    {
        let b = choose|b: [u8; 32]| b@ == self@;
        assert(self.bytes@ == self@);
        assert(b@ =~= self.bytes@);
        assert(b == self.bytes);
    }

    /// The address made of the given bytes.
    pub fn new(bytes: [u8; 32]) -> (r: Address)
        ensures
            r.bytes == bytes,
    {
        Address { bytes }
    }
}

} // verus!
