//! Principal identifiers.

use vstd::prelude::*;

verus! {

/// Number of bytes in a principal identifier.
pub const ACCOUNT_BYTES: usize = 32;

/// An authenticated principal, identified by 32 bytes.
///
/// Two identifiers denote the same principal exactly when all of their
/// bytes agree.
#[derive(Clone, Copy, Debug, PartialEq, Eq, Hash)]
pub struct AccountId {
    pub bytes: [u8; 32],
}

impl AccountId {
    /// The identifier made of the given bytes.
    pub fn new(bytes: [u8; 32]) -> (r: AccountId)
        ensures
            r.bytes == bytes,
    {
        AccountId { bytes }
    }

    /// Whether `self` and `other` denote the same principal.
    pub fn same(&self, other: &AccountId) -> (r: bool)
        ensures
            r == (*self == *other),
    {
        let mut i: usize = 0;
        while i < ACCOUNT_BYTES
            invariant
                i <= ACCOUNT_BYTES,
                forall|j: int| 0 <= j < i ==> self.bytes[j] == other.bytes[j],
            decreases ACCOUNT_BYTES - i,
        {
            if self.bytes[i] != other.bytes[i] {
                return false;
            }
            i += 1;
        }
        assert(self.bytes =~= other.bytes);
        true
    }
}

} // verus!
