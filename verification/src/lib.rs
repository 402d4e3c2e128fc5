//! Multi-party authorization of asset transfers.
//!
//! A fixed set of signatories must jointly reach a quorum of approvals
//! before a proposed transfer may be executed, and each proposal is executed
//! at most once. Every operation is specified as a transition over a
//! mathematical model of the state, and proved against it.

pub mod account;
pub mod error;
pub mod registry;
pub mod proposal;
pub mod allocator;
pub mod store;
pub mod multisig;
pub mod laws;
