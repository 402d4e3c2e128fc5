//! The signatory registry: who may propose and approve, and how many
//! approvals make a quorum.

use vstd::prelude::*;
use crate::account::AccountId;
use crate::error::Error;

verus! {

/// The mathematical model of a [`Registry`].
pub struct RegistryView {
    /// The signatories, in the order in which they were given.
    pub signatories: Seq<AccountId>,
    /// The number of approvals that make a quorum.
    pub threshold: u32,
}

impl RegistryView {
    /// A registry is well formed when its threshold is at least one and at
    /// most the number of signatories.
    pub open spec fn wf(self) -> bool {
        1 <= self.threshold <= self.signatories.len()
    }

    /// Whether `account` is one of the signatories.
    pub open spec fn is_signatory(self, account: AccountId) -> bool {
        self.signatories.contains(account)
    }
}

/// Whether a list of signatories and a threshold make a valid registry.
pub open spec fn valid_configuration(signatories: Seq<AccountId>, threshold: u32) -> bool {
    signatories.len() > 0 && 1 <= threshold <= signatories.len()
}

/// The signatories and the approval threshold, fixed at construction.
///
/// The list of signatories is kept as given: an identifier that occurs
/// twice in it counts twice towards the list's length, against which the
/// threshold is checked, but can approve a proposal only once.
#[derive(Debug)]
pub struct Registry {
    signatories: Vec<AccountId>,
    threshold: u32,
}

impl View for Registry {
    type V = RegistryView;

    closed spec fn view(&self) -> RegistryView {
        RegistryView { signatories: self.signatories@, threshold: self.threshold }
    }
}

impl Registry {
    /// Builds a registry, or refuses with `InvalidConfiguration` exactly when
    /// the list is empty, the threshold is zero, or the threshold exceeds the
    /// length of the list.
    pub fn new(signatories: Vec<AccountId>, threshold: u32) -> (r: Result<Registry, Error>)
        ensures
            valid_configuration(signatories@, threshold) ==> r is Ok,
            !valid_configuration(signatories@, threshold) ==> r == Err::<Registry, Error>(
                Error::InvalidConfiguration,
            ),
            r matches Ok(reg) ==> reg@.wf() && reg@.signatories == signatories@ && reg@.threshold
                == threshold,
    {
        if signatories.len() == 0 || threshold == 0 || threshold as usize > signatories.len() {
            return Err(Error::InvalidConfiguration);
        }
        Ok(Registry { signatories, threshold })
    }

    /// Whether `account` is one of the signatories.
    pub fn is_signatory(&self, account: &AccountId) -> (r: bool)
        ensures
            r == self@.is_signatory(*account),
    {
        let mut i: usize = 0;
        while i < self.signatories.len()
            invariant
                i <= self.signatories.len(),
                forall|j: int| 0 <= j < i ==> self.signatories@[j] != *account,
            decreases self.signatories.len() - i,
        {
            if self.signatories[i].same(account) {
                return true;
            }
            i += 1;
        }
        false
    }

    /// The number of approvals that make a quorum.
    pub fn threshold(&self) -> (r: u32)
        ensures
            r == self@.threshold,
    {
        self.threshold
    }

    /// The number of signatories in the list.
    pub fn signatory_count(&self) -> (r: usize)
        ensures
            r == self@.signatories.len(),
    {
        self.signatories.len()
    }
}

} // verus!
