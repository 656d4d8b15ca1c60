//! Identities of the accounts that take part in a lottery.

use vstd::prelude::*;
use vstd::std_specs::cmp::PartialEqSpecImpl;
use vstd::array::spec_array_fill_for_copy_type;
use crate::bytes::equal32;

verus! {

/// The public key of an account: whoever signs for it acts under this
/// identity. Two identities are the same exactly when their 32 bytes agree.
#[derive(Clone, Copy, Debug)]
pub struct Identity {
    pub bytes: [u8; 32],
}

impl Identity {
    /// The identity with the given key bytes.
    pub fn new(bytes: [u8; 32]) -> (id: Identity)
        ensures
            id.bytes == bytes,
    {
        Identity { bytes }
    }

    /// The all-zero identity, which fills the unused slots of a ticket ledger.
    pub open spec fn blank() -> Identity {
        Identity { bytes: spec_array_fill_for_copy_type::<u8, 32>(0u8) }
    }

    /// Whether `self` and `other` are the same identity.
    pub fn same_as(&self, other: &Identity) -> (same: bool)
        ensures
            same == (*self == *other),
    {
        let same = equal32(&self.bytes, &other.bytes);
        proof {
            if same {
                assert(self.bytes =~= other.bytes);
            }
        }
        same
    }
}

impl Default for Identity {
    /// The all-zero identity, which fills the unused slots of a ticket ledger.
    fn default() -> (id: Identity)
        ensures
            id == Identity::blank(),
    {
        Identity { bytes: [0u8; 32] }
    }
}

impl PartialEq for Identity {
    fn eq(&self, other: &Identity) -> (same: bool) {
        self.same_as(other)
    }
}

impl PartialEqSpecImpl for Identity {
    open spec fn obeys_eq_spec() -> bool {
        true
    }

    open spec fn eq_spec(&self, other: &Identity) -> bool {
        *self == *other
    }
}

impl Eq for Identity {}

} // verus!
