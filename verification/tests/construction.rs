use multisig_transfer::account::AccountId;
use multisig_transfer::allocator::IdAllocator;
use multisig_transfer::error::{Error, TransferError};
use multisig_transfer::multisig::MultisigTransfer;
use multisig_transfer::proposal::{Proposal, TransferOrder};
use multisig_transfer::registry::Registry;
use multisig_transfer::store::ProposalStore;

fn id_of(tag: u8) -> AccountId {
    AccountId::new([tag; 32])
}

fn registry_of_three(threshold: u32) -> Registry {
    Registry::new(vec![id_of(1), id_of(2), id_of(3)], threshold).unwrap()
}

#[test]
fn empty_signatories_are_invalid() {
    assert_eq!(MultisigTransfer::new(vec![], 0).err(), Some(Error::InvalidConfiguration));
    assert_eq!(MultisigTransfer::new(vec![], 1).err(), Some(Error::InvalidConfiguration));
    assert_eq!(Registry::new(vec![], 1).err(), Some(Error::InvalidConfiguration));
}

#[test]
fn zero_threshold_is_invalid() {
    assert_eq!(
        MultisigTransfer::new(vec![id_of(1), id_of(2)], 0).err(),
        Some(Error::InvalidConfiguration)
    );
    assert_eq!(Registry::new(vec![id_of(1)], 0).err(), Some(Error::InvalidConfiguration));
}

#[test]
fn threshold_above_signatory_count_is_invalid() {
    assert_eq!(
        MultisigTransfer::new(vec![id_of(1), id_of(2)], 3).err(),
        Some(Error::InvalidConfiguration)
    );
    assert_eq!(
        Registry::new(vec![id_of(1), id_of(2)], u32::MAX).err(),
        Some(Error::InvalidConfiguration)
    );
}

#[test]
fn thresholds_from_one_to_the_count_are_valid() {
    for threshold in 1..=3u32 {
        let m = MultisigTransfer::new(vec![id_of(1), id_of(2), id_of(3)], threshold).unwrap();
        assert_eq!(m.threshold(), threshold);
        assert_eq!(m.next_proposal_id(), 0);
    }
    assert!(MultisigTransfer::new(vec![id_of(1), id_of(2), id_of(3)], 4).is_err());
}

#[test]
fn registry_keeps_what_it_was_given() {
    let r = registry_of_three(2);
    assert_eq!(r.threshold(), 2);
    assert_eq!(r.signatory_count(), 3);
    assert!(r.is_signatory(&id_of(1)));
    assert!(r.is_signatory(&id_of(2)));
    assert!(r.is_signatory(&id_of(3)));
    assert!(!r.is_signatory(&id_of(0)));
}

#[test]
fn repeated_signatory_counts_towards_the_length_only() {
    let r = Registry::new(vec![id_of(1), id_of(1)], 2).unwrap();
    assert_eq!(r.signatory_count(), 2);
    let mut p = Proposal::create(&r, 0, id_of(1), id_of(9), 10).unwrap();
    assert_eq!(p.approve(&r, id_of(1)), Err(Error::DuplicateApproval));
    assert_eq!(p.transfer_order(&r), Err(Error::InsufficientApprovals));
}

#[test]
fn accounts_are_the_same_when_all_bytes_agree() {
    let mut bytes = [7u8; 32];
    let a = AccountId::new(bytes);
    assert!(a.same(&AccountId::new([7u8; 32])));
    assert_eq!(a.bytes, [7u8; 32]);
    bytes[31] = 8;
    assert!(!a.same(&AccountId::new(bytes)));
    let mut first = [7u8; 32];
    first[0] = 0;
    assert!(!a.same(&AccountId::new(first)));
    let mut middle = [7u8; 32];
    middle[16] = 6;
    assert!(!AccountId::new(middle).same(&a));
}

#[test]
fn signatory_differing_in_one_byte_is_a_stranger() {
    let mut bytes = [1u8; 32];
    bytes[20] = 2;
    let r = registry_of_three(1);
    assert!(!r.is_signatory(&AccountId::new(bytes)));
}

#[test]
fn created_proposal_holds_its_proposer() {
    let r = registry_of_three(2);
    let p = Proposal::create(&r, 5, id_of(2), id_of(9), 77).unwrap();
    assert_eq!(
        p,
        Proposal {
            id: 5,
            proposer: id_of(2),
            to: id_of(9),
            amount: 77,
            approvals: vec![id_of(2)],
            executed: false,
        }
    );
    assert!(p.has_approved(&id_of(2)));
    assert!(!p.has_approved(&id_of(1)));
    assert_eq!(Proposal::create(&r, 5, id_of(4), id_of(9), 77), Err(Error::Unauthorized));
}

#[test]
fn approve_checks_in_order() {
    let r = registry_of_three(2);
    let mut done = Proposal {
        id: 0,
        proposer: id_of(1),
        to: id_of(9),
        amount: 1,
        approvals: vec![id_of(1), id_of(2)],
        executed: true,
    };
    let before = done.clone();
    assert_eq!(done.approve(&r, id_of(4)), Err(Error::Unauthorized));
    assert_eq!(done.approve(&r, id_of(2)), Err(Error::AlreadyExecuted));
    assert_eq!(done.approve(&r, id_of(3)), Err(Error::AlreadyExecuted));
    assert_eq!(done, before);
    let mut open = Proposal { executed: false, ..before.clone() };
    assert_eq!(open.approve(&r, id_of(2)), Err(Error::DuplicateApproval));
    assert_eq!(open.approve(&r, id_of(3)), Ok(()));
    assert_eq!(open.approvals, vec![id_of(1), id_of(2), id_of(3)]);
    assert_eq!(open.proposer, id_of(1));
    assert_eq!(open.amount, 1);
}

#[test]
fn quorum_is_checked_before_the_executed_flag() {
    let r = registry_of_three(2);
    let mut p = Proposal {
        id: 0,
        proposer: id_of(1),
        to: id_of(9),
        amount: 1,
        approvals: vec![id_of(1)],
        executed: true,
    };
    assert_eq!(p.transfer_order(&r), Err(Error::InsufficientApprovals));
    assert_eq!(p.settle(&r, Ok(())), Err(Error::InsufficientApprovals));
    p.approvals.push(id_of(2));
    assert_eq!(p.transfer_order(&r), Err(Error::AlreadyExecuted));
    assert_eq!(p.settle(&r, Ok(())), Err(Error::AlreadyExecuted));
    p.executed = false;
    assert_eq!(p.transfer_order(&r), Ok(TransferOrder { to: id_of(9), amount: 1 }));
}

#[test]
fn settle_marks_executed_only_on_success() {
    let r = registry_of_three(2);
    let mut p = Proposal::create(&r, 0, id_of(1), id_of(9), 3).unwrap();
    p.approve(&r, id_of(3)).unwrap();
    assert!(p.has_sufficient_approvals(&r));
    let before = p.clone();
    assert_eq!(p.settle(&r, Err(TransferError {})), Err(Error::TransferFailed));
    assert_eq!(p, before);
    assert_eq!(p.settle(&r, Ok(())), Ok(()));
    assert_eq!(p, Proposal { executed: true, ..before });
}

#[test]
fn duplicate_is_equal_and_separate() {
    let r = registry_of_three(2);
    let p = Proposal::create(&r, 4, id_of(1), id_of(9), 3).unwrap();
    let mut q = p.duplicate();
    assert_eq!(p, q);
    q.approve(&r, id_of(2)).unwrap();
    assert_eq!(p.approvals, vec![id_of(1)]);
    assert_eq!(q.approvals, vec![id_of(1), id_of(2)]);
}

#[test]
fn allocator_starts_at_zero_and_counts_up() {
    let mut ids = IdAllocator::new();
    assert_eq!(ids.peek(), 0);
    assert!(!ids.is_exhausted());
    assert_eq!(ids.next_id(), 0);
    assert_eq!(ids.next_id(), 1);
    assert_eq!(ids.peek(), 2);
    assert_eq!(ids.next_id(), 2);
}

#[test]
fn allocator_resumes_and_knows_its_end() {
    let mut ids = IdAllocator::resuming_at(41);
    assert_eq!(ids.next_id(), 41);
    assert_eq!(ids.peek(), 42);
    let mut last = IdAllocator::resuming_at(u32::MAX - 1);
    assert!(!last.is_exhausted());
    assert_eq!(last.next_id(), u32::MAX - 1);
    assert!(last.is_exhausted());
    assert_eq!(last.peek(), u32::MAX);
}

#[test]
fn store_returns_what_was_inserted_last() {
    let r = registry_of_three(2);
    let mut store = ProposalStore::new();
    assert_eq!(store.get(0), None);
    let p = Proposal::create(&r, 0, id_of(1), id_of(9), 3).unwrap();
    store.insert(0, p.duplicate());
    assert_eq!(store.get(0), Some(p.duplicate()));
    assert_eq!(store.get(1), None);
    let mut q = p.duplicate();
    q.approve(&r, id_of(2)).unwrap();
    store.insert(0, q.duplicate());
    assert_eq!(store.get(0), Some(q));
    store.insert(7, p.duplicate());
    assert_eq!(store.get(7), Some(p));
}
