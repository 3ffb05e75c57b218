use vstd::prelude::*;

verus! {

/// A 32-byte principal or record identifier.
///
/// The ledger never interprets the bytes: keys are only stored and compared
/// for equality. The identity and signature layer that mints real keys is an
/// external collaborator; callers hand the raw bytes in.
#[derive(Clone, Copy, Debug)]
pub struct Pubkey {
    pub bytes: [u8; 32],
}

impl Pubkey {
    /// Wrap raw key bytes.
    pub fn new(bytes: [u8; 32]) -> (r: Pubkey)
        ensures r == (Pubkey { bytes }),
    {
        Pubkey { bytes }
    }
}

impl PartialEq for Pubkey {
    fn eq(&self, other: &Pubkey) -> (r: bool) {
        let mut i: usize = 0;
        while i < 32
            invariant
                0 <= i <= 32,
                forall|j: int| 0 <= j < i ==> self.bytes@[j] == other.bytes@[j],
            decreases 32 - i,
        {
            if self.bytes[i] != other.bytes[i] {
                proof {
                    assert(self.bytes[i as int] != other.bytes[i as int]);
                }
                return false;
            }
            i += 1;
        }
        proof {
            assert(forall|j: int| 0 <= j < 32 ==> self.bytes[j] == other.bytes[j]);
            assert(self.bytes =~= other.bytes);
        }
        true
    }
}

impl Eq for Pubkey {}

impl vstd::std_specs::cmp::PartialEqSpecImpl for Pubkey {
    open spec fn obeys_eq_spec() -> bool {
        true
    }

    open spec fn eq_spec(&self, other: &Pubkey) -> bool {
        *self == *other
    }
}

} // verus!
