//! Caller identities.

use vstd::prelude::*;

verus! {

/// The identity of a principal: thirty-two bytes that the hosting environment
/// authenticates. Two identities are the same when all their bytes agree.
#[derive(Clone, Copy, Debug)]
pub struct AccountId {
    pub bytes: [u8; 32],
}

impl AccountId {
    /// The identity whose bytes are all zero; it stands for "nobody" wherever
    /// no identity has been recorded.
    pub open spec fn zero() -> AccountId {
        AccountId { bytes: vstd::array::spec_array_fill_for_copy_type::<u8, 32>(0u8) }
    }
}

impl PartialEq for AccountId {
    fn eq(&self, other: &AccountId) -> (same: bool) {
        let mut i: usize = 0;
        while i < 32
            invariant
                i <= 32,
                forall|j: int| 0 <= j < i ==> self.bytes[j] == other.bytes[j],
            decreases 32 - i,
        {
            if self.bytes[i] != other.bytes[i] {
                return false;
            }
            i += 1;
        }
        assert(self.bytes =~= other.bytes);
        true
    }
}

impl vstd::std_specs::cmp::PartialEqSpecImpl for AccountId {
    open spec fn obeys_eq_spec() -> bool {
        true
    }

    open spec fn eq_spec(&self, other: &AccountId) -> bool {
        *self == *other
    }
}

impl Eq for AccountId {

}

impl Default for AccountId {
    fn default() -> (id: AccountId)
        ensures
            id == AccountId::zero(),
    {
        AccountId { bytes: [0u8; 32] }
    }
}

impl From<[u8; 32]> for AccountId {
    fn from(bytes: [u8; 32]) -> (id: AccountId) {
        AccountId { bytes }
    }
}

impl vstd::std_specs::convert::FromSpecImpl<[u8; 32]> for AccountId {
    open spec fn obeys_from_spec() -> bool {
        true
    }

    open spec fn from_spec(bytes: [u8; 32]) -> AccountId {
        AccountId { bytes }
    }
}

} // verus!
