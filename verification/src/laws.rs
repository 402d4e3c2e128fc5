//! What holds of the wallet in every state that calls can reach, stated over
//! the model of the state and proved from the transitions.

use vstd::prelude::*;
use crate::account::AccountId;
use crate::error::{Error, TransferError};
use crate::multisig::StateView;
use crate::proposal::ProposalView;
use crate::registry::{valid_configuration, RegistryView};

verus! {

/// One call on the wallet, with everything that decides its effect. For an
/// execution that includes how the transfer ends if it is attempted.
pub enum Call {
    Propose { caller: AccountId, to: AccountId, amount: u128 },
    Approve { caller: AccountId, id: u32 },
    Execute { id: u32, outcome: Result<(), TransferError> },
}

/// The state after one call. A proposal for which no identifier is left
/// cannot be made, and leaves the state as it is.
pub open spec fn step(s: StateView, call: Call) -> StateView {
    match call {
        Call::Propose { caller, to, amount } => if s.next_id < u32::MAX {
            s.proposed(caller, to, amount).0
        } else {
            s
        },
        Call::Approve { caller, id } => s.approved(caller, id).0,
        Call::Execute { id, outcome } => s.executed(id, outcome).0,
    }
}

/// The state after a sequence of calls, made in order.
pub open spec fn run(s: StateView, calls: Seq<Call>) -> StateView
    decreases calls.len(),
{
    if calls.len() == 0 {
        s
    } else {
        step(run(s, calls.drop_last()), calls.last())
    }
}

/// A construction is valid exactly when the list of signatories is not
/// empty and the threshold is at least one and at most the length of the
/// list; the state that a valid construction gives is well formed.
pub proof fn law_valid_construction(signatories: Seq<AccountId>, threshold: u32)
    ensures
        valid_configuration(signatories, threshold) <==> !(signatories.len() == 0 || threshold == 0
            || threshold > signatories.len()),
        valid_configuration(signatories, threshold) ==> StateView::initial(
            signatories,
            threshold,
        ).wf() && 1 <= threshold <= signatories.len(),
{
}

/// A proposal that is created is well formed: its proposer, and nobody
/// else, has approved it.
pub proof fn law_created_well_formed(
    registry: RegistryView,
    id: u32,
    caller: AccountId,
    to: AccountId,
    amount: u128,
)
    requires
        ProposalView::created(registry, id, caller, to, amount) is Ok,
    ensures
        ProposalView::created(registry, id, caller, to, amount).unwrap().wf(registry),
        ProposalView::created(registry, id, caller, to, amount).unwrap().approvals == seq![caller],
{
    let p = ProposalView::created(registry, id, caller, to, amount).unwrap();
    assert(p.approvals[0] == caller);
}

/// Right after a successful proposal the new proposal is stored under the
/// identifier returned, is not executed, and counts its proposer, the
/// caller, among its approvals.
pub proof fn law_proposer_has_approved(s: StateView, caller: AccountId, to: AccountId, amount: u128)
    requires
        s.proposed(caller, to, amount).1 is Ok,
    ensures
        ({
            let (after, result) = s.proposed(caller, to, amount);
            let id = result.unwrap();
            &&& id == s.next_id
            &&& after.proposals.contains_key(id)
            &&& after.proposals[id].id == id
            &&& after.proposals[id].proposer == caller
            &&& after.proposals[id].to == to
            &&& after.proposals[id].amount == amount
            &&& after.proposals[id].approvals.contains(caller)
            &&& !after.proposals[id].executed
        }),
{
    let (after, result) = s.proposed(caller, to, amount);
    law_created_well_formed(s.registry, s.next_id, caller, to, amount);
    assert(after.proposals[s.next_id].approvals[0] == caller);
}

/// A proposal gets the next identifier, which no proposal had before,
/// advances the next identifier by one, and leaves every earlier proposal
/// as it was.
pub proof fn law_identifiers_never_reused(
    s: StateView,
    caller: AccountId,
    to: AccountId,
    amount: u128,
    earlier: u32,
)
    requires
        s.wf(),
        s.next_id < u32::MAX,
        s.proposed(caller, to, amount).1 is Ok,
    ensures
        !s.proposals.contains_key(s.proposed(caller, to, amount).1.unwrap()),
        s.proposed(caller, to, amount).1.unwrap() == s.next_id,
        s.proposed(caller, to, amount).0.next_id == s.next_id + 1,
        s.proposals.contains_key(earlier) ==> s.proposed(caller, to, amount).0.proposals[earlier]
            == s.proposals[earlier],
{
}

/// Every call keeps a well-formed state well formed, and leaves the
/// registry as it is.
pub proof fn law_step_preserves_wf(s: StateView, call: Call)
    requires
        s.wf(),
    ensures
        step(s, call).wf(),
        step(s, call).registry == s.registry,
{
    match call {
        Call::Propose { caller, to, amount } => {
            if s.next_id < u32::MAX && ProposalView::created(
                s.registry,
                s.next_id,
                caller,
                to,
                amount,
            ) is Ok {
                law_created_well_formed(s.registry, s.next_id, caller, to, amount);
            }
        },
        Call::Approve { caller, id } => {
            if s.registry.is_signatory(caller) && s.proposals.contains_key(id)
                && s.proposals[id].approved(s.registry, caller) is Ok {
                crate::proposal::lemma_approved_wf(s.proposals[id], s.registry, caller);
            }
        },
        Call::Execute { id, outcome } => {},
    }
}

/// Every sequence of calls keeps a well-formed state well formed.
pub proof fn law_run_preserves_wf(s: StateView, calls: Seq<Call>)
    requires
        s.wf(),
    ensures
        run(s, calls).wf(),
        run(s, calls).registry == s.registry,
    decreases calls.len(),
{
    if calls.len() > 0 {
        law_run_preserves_wf(s, calls.drop_last());
        law_step_preserves_wf(run(s, calls.drop_last()), calls.last());
    }
}

/// After any sequence of calls on a validly constructed wallet, no proposal
/// holds an approval twice, every approval is a signatory's, and every
/// proposal is approved by its proposer.
pub proof fn law_approvals_never_duplicated(
    signatories: Seq<AccountId>,
    threshold: u32,
    calls: Seq<Call>,
    id: u32,
)
    requires
        valid_configuration(signatories, threshold),
        run(StateView::initial(signatories, threshold), calls).proposals.contains_key(id),
    ensures
        ({
            let p = run(StateView::initial(signatories, threshold), calls).proposals[id];
            &&& p.approvals.no_duplicates()
            &&& p.approvals.contains(p.proposer)
            &&& forall|i: int|
                0 <= i < p.approvals.len() ==> signatories.contains(#[trigger] p.approvals[i])
        }),
{
    law_run_preserves_wf(StateView::initial(signatories, threshold), calls);
}

/// Whoever is among the approvals of an unexecuted proposal and approves it
/// again is refused with `DuplicateApproval`, and nothing changes. In
/// particular a second approval right after a successful one is refused.
pub proof fn law_second_approval_refused(s: StateView, caller: AccountId, id: u32)
    ensures
        s.registry.is_signatory(caller) && s.proposals.contains_key(id) && !s.proposals[id].executed
            && s.proposals[id].approvals.contains(caller) ==> s.approved(caller, id) == (
            s,
            Err::<(), Error>(Error::DuplicateApproval),
        ),
        s.approved(caller, id).1 is Ok ==> s.approved(caller, id).0.approved(caller, id) == (
            s.approved(caller, id).0,
            Err::<(), Error>(Error::DuplicateApproval),
        ),
{
    if s.approved(caller, id).1 is Ok {
        let after = s.approved(caller, id).0;
        let p = s.proposals[id];
        let q = after.proposals[id];
        assert(q.approvals == p.approvals.push(caller));
        assert(q.approvals[p.approvals.len() as int] == caller);
    }
}

/// An execution succeeds only with a quorum: below the threshold it is
/// refused with `InsufficientApprovals`, however the transfer would end,
/// and nothing changes.
pub proof fn law_no_execution_below_threshold(
    s: StateView,
    id: u32,
    outcome: Result<(), TransferError>,
)
    ensures
        s.executed(id, outcome).1 is Ok ==> s.proposals.contains_key(id)
            && s.proposals[id].approvals.len() >= s.registry.threshold,
        s.proposals.contains_key(id) && s.proposals[id].approvals.len() < s.registry.threshold
            ==> s.executed(id, outcome) == (s, Err::<(), Error>(Error::InsufficientApprovals))
            && s.transfer_order(id) is Err,
{
}

/// A successful execution takes the proposal from unexecuted to executed
/// and changes nothing else of it; every execution after it is refused with
/// `AlreadyExecuted` before any transfer is attempted.
pub proof fn law_executed_once(
    s: StateView,
    id: u32,
    outcome: Result<(), TransferError>,
    later: Result<(), TransferError>,
)
    requires
        s.executed(id, outcome).1 is Ok,
    ensures
        ({
            let after = s.executed(id, outcome).0;
            &&& outcome is Ok
            &&& !s.proposals[id].executed
            &&& after.proposals[id] == (ProposalView { executed: true, ..s.proposals[id] })
            &&& after.transfer_order(id) == Err::<crate::proposal::TransferOrder, Error>(
                Error::AlreadyExecuted,
            )
            &&& after.executed(id, later) == (after, Err::<(), Error>(Error::AlreadyExecuted))
        }),
{
}

/// No call takes an executed proposal back to unexecuted, or removes a
/// proposal.
pub proof fn law_executed_never_reverts(s: StateView, call: Call, id: u32)
    requires
        s.wf(),
        s.proposals.contains_key(id),
    ensures
        step(s, call).proposals.contains_key(id),
        s.proposals[id].executed ==> step(s, call).proposals[id] == s.proposals[id],
{
}

/// No sequence of calls takes an executed proposal back to unexecuted, or
/// changes it in any way.
pub proof fn law_execution_is_final(s: StateView, calls: Seq<Call>, id: u32)
    requires
        s.wf(),
        s.proposals.contains_key(id),
        s.proposals[id].executed,
    ensures
        run(s, calls).proposals.contains_key(id),
        run(s, calls).proposals[id] == s.proposals[id],
    decreases calls.len(),
{
    if calls.len() > 0 {
        law_execution_is_final(s, calls.drop_last(), id);
        law_run_preserves_wf(s, calls.drop_last());
        law_executed_never_reverts(run(s, calls.drop_last()), calls.last(), id);
    }
}

/// An execution whose transfer fails changes nothing and reports an error:
/// `TransferFailed` where the proposal was executable. The same execution
/// with a transfer that succeeds then still succeeds.
pub proof fn law_failed_transfer_changes_nothing(s: StateView, id: u32, failure: TransferError)
    ensures
        s.executed(id, Err(failure)).0 == s,
        s.executed(id, Err(failure)).1 is Err,
        s.transfer_order(id) is Ok ==> s.executed(id, Err(failure)).1 == Err::<(), Error>(
            Error::TransferFailed,
        ) && s.executed(id, Err(failure)).0.executed(id, Ok(())).1 is Ok,
{
}

/// Whoever is no signatory is refused with `Unauthorized` when proposing
/// and when approving, and nothing changes.
pub proof fn law_non_signatory_refused(
    s: StateView,
    caller: AccountId,
    to: AccountId,
    amount: u128,
    id: u32,
)
    requires
        !s.registry.is_signatory(caller),
    ensures
        s.proposed(caller, to, amount) == (s, Err::<u32, Error>(Error::Unauthorized)),
        s.approved(caller, id) == (s, Err::<(), Error>(Error::Unauthorized)),
{
}

/// Every call that is refused leaves the state as it is.
pub proof fn law_refusal_changes_nothing(s: StateView, call: Call)
    ensures
        match call {
            Call::Propose { caller, to, amount } => s.proposed(caller, to, amount).1 is Err
                ==> s.proposed(caller, to, amount).0 == s,
            Call::Approve { caller, id } => s.approved(caller, id).1 is Err ==> s.approved(
                caller,
                id,
            ).0 == s,
            Call::Execute { id, outcome } => s.executed(id, outcome).1 is Err ==> s.executed(
                id,
                outcome,
            ).0 == s,
        },
{
}

} // verus!
