//! Identity keys: the 32-byte values that name users, records and the admin.

use vstd::prelude::*;
use vstd::std_specs::cmp::PartialEqSpecImpl;

verus! {

/// A 32-byte identity key.
#[derive(Clone, Copy, Debug)]
pub struct IdentityKey {
    pub bytes: [u8; 32],
}

impl View for IdentityKey {
    type V = Seq<u8>;

    open spec fn view(&self) -> Seq<u8> {
        self.bytes@
    }
}

impl IdentityKey {
    /// Wraps 32 bytes as a key.
    pub fn new_from_array(bytes: [u8; 32]) -> (key: IdentityKey)
        ensures
            key.bytes == bytes,
            key@ == bytes@,
    {
        IdentityKey { bytes }
    }

    /// The key's 32 bytes.
    pub fn to_bytes(&self) -> (bytes: [u8; 32])
        ensures
            bytes == self.bytes,
            bytes@ == self@,
    {
        self.bytes
    }

    /// Two keys with the same bytes are the same key.
    pub proof fn lemma_view_injective(a: IdentityKey, b: IdentityKey)
        ensures
            (a@ == b@) <==> (a == b),
    {
        if a@ == b@ {
            assert(a.bytes@ =~= b.bytes@);
            assert(a.bytes =~= b.bytes);
        }
    }
}

impl PartialEq for IdentityKey {
    fn eq(&self, other: &IdentityKey) -> (same: bool) {
        let mut i: usize = 0;
        while i < 32
            invariant
                i <= 32,
                forall|j: int| 0 <= j < i ==> self.bytes@[j] == other.bytes@[j],
            decreases 32 - i,
        {
            if self.bytes[i] != other.bytes[i] {
                return false;
            }
            i = i + 1;
        }
        assert(self.bytes@ =~= other.bytes@);
        true
    }
}

impl Eq for IdentityKey {

}

impl PartialEqSpecImpl for IdentityKey {
    open spec fn obeys_eq_spec() -> bool {
        true
    }

    open spec fn eq_spec(&self, other: &IdentityKey) -> bool {
        self@ == other@
    }
}

} // verus!
