//! A proposed transfer and the rules of its life: creation, approval,
//! and execution at most once.

use vstd::prelude::*;
use crate::account::AccountId;
use crate::error::{Error, TransferError};
use crate::registry::{Registry, RegistryView};

verus! {

/// The mathematical model of a [`Proposal`].
pub struct ProposalView {
    pub id: u32,
    pub proposer: AccountId,
    pub to: AccountId,
    pub amount: u128,
    /// The principals that have approved, in the order of their approvals.
    pub approvals: Seq<AccountId>,
    pub executed: bool,
}

/// What the settlement is asked to do when a proposal is executed.
#[derive(Clone, Copy, Debug, PartialEq, Eq)]
pub struct TransferOrder {
    /// The recipient of the transfer.
    pub to: AccountId,
    /// The amount to transfer.
    pub amount: u128,
}

impl ProposalView {
    /// A proposal is well formed under a registry when nobody has approved
    /// it twice, everybody who approved it is a signatory, and its proposer
    /// is among those who approved it.
    pub open spec fn wf(self, registry: RegistryView) -> bool {
        &&& self.approvals.no_duplicates()
        &&& forall|i: int|
            0 <= i < self.approvals.len() ==> registry.is_signatory(#[trigger] self.approvals[i])
        &&& self.approvals.contains(self.proposer)
    }

    /// Whether the approvals reach the registry's threshold.
    pub open spec fn has_quorum(self, registry: RegistryView) -> bool {
        self.approvals.len() >= registry.threshold
    }

    /// The proposal that `caller` creates under the identifier `id`,
    /// approved by `caller` alone, or `Unauthorized` when `caller` is no
    /// signatory.
    pub open spec fn created(
        registry: RegistryView,
        id: u32,
        caller: AccountId,
        to: AccountId,
        amount: u128,
    ) -> Result<ProposalView, Error> {
        if !registry.is_signatory(caller) {
            Err(Error::Unauthorized)
        } else {
            Ok(
                ProposalView {
                    id,
                    proposer: caller,
                    to,
                    amount,
                    approvals: seq![caller],
                    executed: false,
                },
            )
        }
    }

    /// The proposal after `caller` has approved it, or the reason for which
    /// the approval is refused.
    pub open spec fn approved(self, registry: RegistryView, caller: AccountId) -> Result<
        ProposalView,
        Error,
    > {
        if !registry.is_signatory(caller) {
            Err(Error::Unauthorized)
        } else if self.executed {
            Err(Error::AlreadyExecuted)
        } else if self.approvals.contains(caller) {
            Err(Error::DuplicateApproval)
        } else {
            Ok(ProposalView { approvals: self.approvals.push(caller), ..self })
        }
    }

    /// The transfer that executing the proposal asks for, or the reason for
    /// which execution is refused before any transfer is attempted.
    pub open spec fn transfer_order(self, registry: RegistryView) -> Result<TransferOrder, Error> {
        if !self.has_quorum(registry) {
            Err(Error::InsufficientApprovals)
        } else if self.executed {
            Err(Error::AlreadyExecuted)
        } else {
            Ok(TransferOrder { to: self.to, amount: self.amount })
        }
    }

    /// The proposal after an execution whose transfer ended in `outcome`, or
    /// the reason for which the execution failed.
    pub open spec fn settled(self, registry: RegistryView, outcome: Result<(), TransferError>) -> Result<
        ProposalView,
        Error,
    > {
        match self.transfer_order(registry) {
            Err(e) => Err(e),
            Ok(_) => match outcome {
                Err(_) => Err(Error::TransferFailed),
                Ok(_) => Ok(ProposalView { executed: true, ..self }),
            },
        }
    }
}

/// A request to transfer `amount` to `to`, with the approvals collected so
/// far and whether the transfer has been carried out.
#[derive(Clone, Debug, PartialEq, Eq)]
pub struct Proposal {
    /// The identifier under which the proposal is stored.
    pub id: u32,
    /// The signatory that created the proposal.
    pub proposer: AccountId,
    /// The recipient of the transfer.
    pub to: AccountId,
    /// The amount to transfer.
    pub amount: u128,
    /// The signatories that have approved, in the order of their approvals.
    pub approvals: Vec<AccountId>,
    /// Whether the transfer has been carried out.
    pub executed: bool,
}

impl View for Proposal {
    type V = ProposalView;

    open spec fn view(&self) -> ProposalView {
        ProposalView {
            id: self.id,
            proposer: self.proposer,
            to: self.to,
            amount: self.amount,
            approvals: self.approvals@,
            executed: self.executed,
        }
    }
}

impl Proposal {
    /// Creates, under the identifier `id`, the proposal of `caller` to
    /// transfer `amount` to `to`. The caller's own approval is recorded at
    /// once. Refused with `Unauthorized` when `caller` is no signatory.
    pub fn create(
        registry: &Registry,
        id: u32,
        caller: AccountId,
        to: AccountId,
        amount: u128,
    ) -> (r: Result<Proposal, Error>)
        ensures
            match ProposalView::created(registry@, id, caller, to, amount) {
                Ok(p) => r matches Ok(q) && q@ == p && p.wf(registry@),
                Err(e) => r == Err::<Proposal, Error>(e),
            },
    {
        if !registry.is_signatory(&caller) {
            return Err(Error::Unauthorized);
        }
        let mut approvals: Vec<AccountId> = Vec::new();
        approvals.push(caller);
        proof {
            assert(approvals@ =~= seq![caller]);
            assert(approvals@[0] == caller);
        }
        Ok(Proposal { id, proposer: caller, to, amount, approvals, executed: false })
    }

    /// A copy of the proposal.
    pub fn duplicate(&self) -> (r: Proposal)
        ensures
            r@ == self@,
    {
        let mut approvals: Vec<AccountId> = Vec::new();
        let mut i: usize = 0;
        while i < self.approvals.len()
            invariant
                i <= self.approvals.len(),
                approvals@ == self.approvals@.take(i as int),
            decreases self.approvals.len() - i,
        {
            approvals.push(self.approvals[i]);
            assert(approvals@ =~= self.approvals@.take(i + 1));
            i += 1;
        }
        assert(approvals@ =~= self.approvals@);
        Proposal {
            id: self.id,
            proposer: self.proposer,
            to: self.to,
            amount: self.amount,
            approvals,
            executed: self.executed,
        }
    }

    /// Whether `account` has approved the proposal.
    pub fn has_approved(&self, account: &AccountId) -> (r: bool)
        ensures
            r == self@.approvals.contains(*account),
    {
        let mut i: usize = 0;
        while i < self.approvals.len()
            invariant
                i <= self.approvals.len(),
                forall|j: int| 0 <= j < i ==> self.approvals@[j] != *account,
            decreases self.approvals.len() - i,
        {
            if self.approvals[i].same(account) {
                return true;
            }
            i += 1;
        }
        false
    }

    /// Whether the approvals reach the registry's threshold.
    pub fn has_sufficient_approvals(&self, registry: &Registry) -> (r: bool)
        ensures
            r == self@.has_quorum(registry@),
    {
        self.approvals.len() >= registry.threshold() as usize
    }

    /// Records the approval of `caller`. Refused, with the proposal left as
    /// it was, when `caller` is no signatory, when the proposal has been
    /// executed, or when `caller` has approved it before.
    pub fn approve(&mut self, registry: &Registry, caller: AccountId) -> (r: Result<(), Error>)
        ensures
            match old(self)@.approved(registry@, caller) {
                Ok(p) => r is Ok && final(self)@ == p,
                Err(e) => r == Err::<(), Error>(e) && final(self)@ == old(self)@,
            },
            old(self)@.wf(registry@) ==> final(self)@.wf(registry@),
    {
        if !registry.is_signatory(&caller) {
            return Err(Error::Unauthorized);
        }
        if self.executed {
            return Err(Error::AlreadyExecuted);
        }
        if self.has_approved(&caller) {
            return Err(Error::DuplicateApproval);
        }
        self.approvals.push(caller);
        proof {
            lemma_approved_wf(old(self)@, registry@, caller);
        }
        Ok(())
    }

    /// Decides whether the proposal may be executed now, and if so which
    /// transfer that takes. Nothing is changed.
    pub fn transfer_order(&self, registry: &Registry) -> (r: Result<TransferOrder, Error>)
        ensures
            r == self@.transfer_order(registry@),
    {
        if !self.has_sufficient_approvals(registry) {
            return Err(Error::InsufficientApprovals);
        }
        if self.executed {
            return Err(Error::AlreadyExecuted);
        }
        Ok(TransferOrder { to: self.to, amount: self.amount })
    }

    /// Concludes an execution whose transfer ended in `outcome`: the proposal
    /// becomes executed only if it was executable and the transfer
    /// succeeded, and is left as it was otherwise.
    pub fn settle(&mut self, registry: &Registry, outcome: Result<(), TransferError>) -> (r: Result<
        (),
        Error,
    >)
        ensures
            match old(self)@.settled(registry@, outcome) {
                Ok(p) => r is Ok && final(self)@ == p,
                Err(e) => r == Err::<(), Error>(e) && final(self)@ == old(self)@,
            },
            old(self)@.wf(registry@) ==> final(self)@.wf(registry@),
    {
        match self.transfer_order(registry) {
            Err(e) => Err(e),
            Ok(_) => match outcome {
                Err(_) => Err(Error::TransferFailed),
                Ok(_) => {
                    self.executed = true;
                    Ok(())
                },
            },
        }
    }
}

/// An approval that is accepted keeps the proposal well formed.
pub proof fn lemma_approved_wf(p: ProposalView, registry: RegistryView, caller: AccountId)
    requires
        p.approved(registry, caller) is Ok,
    ensures
        p.wf(registry) ==> p.approved(registry, caller).unwrap().wf(registry),
{
    let q = p.approved(registry, caller).unwrap();
    if p.wf(registry) {
        assert(q.approvals == p.approvals.push(caller));
        assert forall|i: int, j: int|
            0 <= i < q.approvals.len() && 0 <= j < q.approvals.len() && i != j implies q.approvals[i]
            != q.approvals[j] by {
            if i < p.approvals.len() && j < p.approvals.len() {
            } else if i < p.approvals.len() {
                assert(p.approvals.contains(p.approvals[i]));
            } else {
                assert(p.approvals.contains(p.approvals[j]));
            }
        }
        let k = choose|k: int| 0 <= k < p.approvals.len() && p.approvals[k] == p.proposer;
        assert(q.approvals[k] == p.proposer);
    }
}

} // verus!
