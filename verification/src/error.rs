//! The ways in which an operation can be refused.

use vstd::prelude::*;

verus! {

/// Why an operation was refused. A refused operation changes nothing.
#[derive(Clone, Copy, Debug, PartialEq, Eq, Structural)]
pub enum Error {
    /// The signatory list is empty, or the threshold is zero or larger than
    /// the number of signatories.
    InvalidConfiguration,
    /// The caller is not a signatory.
    Unauthorized,
    /// No proposal has the given identifier.
    NotFound,
    /// The proposal has already been executed.
    AlreadyExecuted,
    /// The caller has already approved the proposal.
    DuplicateApproval,
    /// The proposal has fewer approvals than the threshold.
    InsufficientApprovals,
    /// The settlement of the transfer reported a failure.
    TransferFailed,
}

/// A failure reported by whatever settles a transfer.
#[derive(Clone, Copy, Debug, PartialEq, Eq, Structural)]
pub struct TransferError {}

} // verus!
