//! The proposal lifecycle manager: propose, approve, execute and read, over
//! a registry, a proposal store and an identifier allocator that it owns.

use vstd::prelude::*;
use crate::account::AccountId;
use crate::allocator::IdAllocator;
use crate::error::{Error, TransferError};
use crate::proposal::{Proposal, ProposalView, TransferOrder};
use crate::registry::{valid_configuration, Registry, RegistryView};
use crate::store::ProposalStore;

verus! {

/// The mathematical model of a [`MultisigTransfer`].
pub struct StateView {
    /// The signatories and the threshold.
    pub registry: RegistryView,
    /// Every proposal created so far, under its identifier.
    pub proposals: Map<u32, ProposalView>,
    /// The identifier that the next proposal will get.
    pub next_id: u32,
}

impl StateView {
    /// The state right after construction: no proposal, and zero as the
    /// next identifier.
    pub open spec fn initial(signatories: Seq<AccountId>, threshold: u32) -> StateView {
        StateView {
            registry: RegistryView { signatories, threshold },
            proposals: Map::empty(),
            next_id: 0,
        }
    }

    /// A state is well formed when its registry is, the identifiers in use
    /// are exactly those below the next identifier, and every proposal is
    /// well formed under the registry and carries the identifier under
    /// which it is stored.
    pub open spec fn wf(self) -> bool {
        &&& self.registry.wf()
        &&& forall|id: u32| #[trigger] self.proposals.contains_key(id) <==> id < self.next_id
        &&& forall|id: u32| #[trigger]
            self.proposals.contains_key(id) ==> self.proposals[id].wf(self.registry)
                && self.proposals[id].id == id
    }

    /// The proposal with the given identifier, or `NotFound`.
    pub open spec fn proposal(self, id: u32) -> Result<ProposalView, Error> {
        if self.proposals.contains_key(id) {
            Ok(self.proposals[id])
        } else {
            Err(Error::NotFound)
        }
    }

    /// The state and the result after `caller` proposes to transfer
    /// `amount` to `to`, where an identifier is left to allocate.
    pub open spec fn proposed(self, caller: AccountId, to: AccountId, amount: u128) -> (
        StateView,
        Result<u32, Error>,
    )
        recommends
            self.next_id < u32::MAX,
    {
        match ProposalView::created(self.registry, self.next_id, caller, to, amount) {
            Err(e) => (self, Err(e)),
            Ok(p) => (
                StateView {
                    proposals: self.proposals.insert(self.next_id, p),
                    next_id: (self.next_id + 1) as u32,
                    ..self
                },
                Ok(self.next_id),
            ),
        }
    }

    /// The state and the result after `caller` approves the proposal `id`.
    pub open spec fn approved(self, caller: AccountId, id: u32) -> (StateView, Result<(), Error>) {
        if !self.registry.is_signatory(caller) {
            (self, Err(Error::Unauthorized))
        } else if !self.proposals.contains_key(id) {
            (self, Err(Error::NotFound))
        } else {
            match self.proposals[id].approved(self.registry, caller) {
                Err(e) => (self, Err(e)),
                Ok(p) => (StateView { proposals: self.proposals.insert(id, p), ..self }, Ok(())),
            }
        }
    }

    /// The transfer that executing the proposal `id` asks for, or the
    /// reason for which execution is refused before any transfer is
    /// attempted.
    pub open spec fn transfer_order(self, id: u32) -> Result<TransferOrder, Error> {
        if !self.proposals.contains_key(id) {
            Err(Error::NotFound)
        } else {
            self.proposals[id].transfer_order(self.registry)
        }
    }

    /// The state and the result after an execution of the proposal `id`
    /// whose transfer, if it was attempted, ended in `outcome`.
    pub open spec fn executed(self, id: u32, outcome: Result<(), TransferError>) -> (
        StateView,
        Result<(), Error>,
    ) {
        if !self.proposals.contains_key(id) {
            (self, Err(Error::NotFound))
        } else {
            match self.proposals[id].settled(self.registry, outcome) {
                Err(e) => (self, Err(e)),
                Ok(p) => (StateView { proposals: self.proposals.insert(id, p), ..self }, Ok(())),
            }
        }
    }
}

/// A multi-signature wallet for transfers: signatories propose transfers and
/// approve them, and a proposal with enough approvals is executed once.
#[derive(Debug)]
pub struct MultisigTransfer {
    registry: Registry,
    proposals: ProposalStore,
    ids: IdAllocator,
}

impl View for MultisigTransfer {
    type V = StateView;

    closed spec fn view(&self) -> StateView {
        StateView { registry: self.registry@, proposals: self.proposals@, next_id: self.ids@ }
    }
}

impl MultisigTransfer {
    /// Builds the wallet with no proposal, or refuses with
    /// `InvalidConfiguration` exactly when the list of signatories is empty,
    /// the threshold is zero, or the threshold exceeds the length of the
    /// list.
    pub fn new(signatories: Vec<AccountId>, threshold: u32) -> (r: Result<MultisigTransfer, Error>)
        ensures
            valid_configuration(signatories@, threshold) ==> (r matches Ok(m) && m@
                == StateView::initial(signatories@, threshold) && m@.wf()),
            !valid_configuration(signatories@, threshold) ==> r == Err::<MultisigTransfer, Error>(
                Error::InvalidConfiguration,
            ),
    {
        match Registry::new(signatories, threshold) {
            Err(e) => Err(e),
            Ok(registry) => Ok(
                MultisigTransfer { registry, proposals: ProposalStore::new(), ids: IdAllocator::new() },
            ),
        }
    }

    /// Whether `account` is one of the signatories.
    pub fn is_signatory(&self, account: &AccountId) -> (r: bool)
        ensures
            r == self@.registry.is_signatory(*account),
    {
        self.registry.is_signatory(account)
    }

    /// The number of approvals that make a quorum.
    pub fn threshold(&self) -> (r: u32)
        ensures
            r == self@.registry.threshold,
    {
        self.registry.threshold()
    }

    /// The identifier that the next proposal will get.
    pub fn next_proposal_id(&self) -> (r: u32)
        ensures
            r == self@.next_id,
    {
        self.ids.peek()
    }

    /// Whether `proposal` has as many approvals as the threshold asks for.
    pub fn has_sufficient_approvals(&self, proposal: &Proposal) -> (r: bool)
        ensures
            r == proposal@.has_quorum(self@.registry),
    {
        proposal.has_sufficient_approvals(&self.registry)
    }

    /// Creates a proposal of `caller` to transfer `amount` to `to`, already
    /// approved by `caller`, and returns its identifier. Refused with
    /// `Unauthorized`, and nothing changed, when `caller` is no signatory.
    /// An identifier must be left to allocate: the next one is below
    /// `u32::MAX`.
    pub fn propose_transfer(&mut self, caller: AccountId, to: AccountId, amount: u128) -> (r:
        Result<u32, Error>)
        requires
            old(self)@.next_id < u32::MAX,
        ensures
            (final(self)@, r) == old(self)@.proposed(caller, to, amount),
            old(self)@.wf() ==> final(self)@.wf(),
    {
        match Proposal::create(&self.registry, self.ids.peek(), caller, to, amount) {
            Err(e) => Err(e),
            Ok(proposal) => {
                let id: u32 = self.ids.next_id();
                self.proposals.insert(id, proposal);
                Ok(id)
            },
        }
    }

    /// Records the approval of `caller` for the proposal `proposal_id`.
    /// Refused, and nothing changed, with `Unauthorized` when `caller` is no
    /// signatory, else `NotFound` when there is no such proposal, else
    /// `AlreadyExecuted` when it has been executed, else `DuplicateApproval`
    /// when `caller` has approved it before.
    pub fn approve_proposal(&mut self, caller: AccountId, proposal_id: u32) -> (r: Result<
        (),
        Error,
    >)
        ensures
            (final(self)@, r) == old(self)@.approved(caller, proposal_id),
            old(self)@.wf() ==> final(self)@.wf(),
    {
        if !self.registry.is_signatory(&caller) {
            return Err(Error::Unauthorized);
        }
        match self.proposals.get(proposal_id) {
            None => Err(Error::NotFound),
            Some(mut proposal) => match proposal.approve(&self.registry, caller) {
                Err(e) => Err(e),
                Ok(_) => {
                    self.proposals.insert(proposal_id, proposal);
                    Ok(())
                },
            },
        }
    }

    /// Decides whether the proposal `proposal_id` may be executed now, and
    /// if so which transfer that takes. Refused with `NotFound` when there
    /// is no such proposal, else `InsufficientApprovals` when its approvals
    /// are below the threshold, else `AlreadyExecuted` when it has been
    /// executed. Nothing is changed.
    pub fn transfer_order(&self, proposal_id: u32) -> (r: Result<TransferOrder, Error>)
        ensures
            r == self@.transfer_order(proposal_id),
    {
        match self.proposals.get(proposal_id) {
            None => Err(Error::NotFound),
            Some(proposal) => proposal.transfer_order(&self.registry),
        }
    }

    /// Concludes an execution of the proposal `proposal_id` whose transfer
    /// ended in `outcome`. The proposal is checked again as `transfer_order`
    /// checks it; then a failed transfer gives `TransferFailed` and changes
    /// nothing, and a successful one marks the proposal as executed.
    pub fn settle_execution(&mut self, proposal_id: u32, outcome: Result<(), TransferError>) -> (r:
        Result<(), Error>)
        ensures
            (final(self)@, r) == old(self)@.executed(proposal_id, outcome),
            old(self)@.wf() ==> final(self)@.wf(),
    {
        match self.proposals.get(proposal_id) {
            None => Err(Error::NotFound),
            Some(mut proposal) => match proposal.settle(&self.registry, outcome) {
                Err(e) => Err(e),
                Ok(_) => {
                    self.proposals.insert(proposal_id, proposal);
                    Ok(())
                },
            },
        }
    }

    /// Executes the proposal `proposal_id`: decides as `transfer_order`
    /// does, and only if that allows it calls `transfer` with the recipient
    /// and the amount, then concludes as `settle_execution` does with what
    /// the call returned. Any caller may execute; `caller` decides nothing.
    pub fn execute_proposal<F: FnOnce(AccountId, u128) -> Result<(), TransferError>>(
        &mut self,
        caller: AccountId,
        proposal_id: u32,
        transfer: F,
    ) -> (r: Result<(), Error>)
        requires
            old(self)@.transfer_order(proposal_id) matches Ok(order) ==> call_requires(
                transfer,
                (order.to, order.amount),
            ),
        ensures
            match old(self)@.transfer_order(proposal_id) {
                Err(e) => r == Err::<(), Error>(e) && final(self)@ == old(self)@,
                Ok(order) => exists|outcome: Result<(), TransferError>|
                    call_ensures(transfer, (order.to, order.amount), outcome) && (final(self)@, r)
                        == #[trigger] old(self)@.executed(proposal_id, outcome),
            },
            old(self)@.wf() ==> final(self)@.wf(),
    {
        match self.transfer_order(proposal_id) {
            Err(e) => Err(e),
            Ok(order) => {
                let outcome = transfer(order.to, order.amount);
                self.settle_execution(proposal_id, outcome)
            },
        }
    }

    /// A copy of the proposal `proposal_id`, or `NotFound`.
    pub fn get_proposal(&self, proposal_id: u32) -> (r: Result<Proposal, Error>)
        ensures
            match self@.proposal(proposal_id) {
                Ok(p) => r matches Ok(q) && q@ == p,
                Err(e) => r == Err::<Proposal, Error>(e),
            },
    {
        match self.proposals.get(proposal_id) {
            None => Err(Error::NotFound),
            Some(proposal) => Ok(proposal),
        }
    }
}

} // verus!
