//! Proposal lifecycle tests: creation, validation order, and queries.

use dao::governor::Governor;
use dao::governor::GovernorError;
use dao::governor::Proposal;
use dao::tally::ProposalVote;

const ONE_MINUTE: u64 = 60;

#[test]
fn propose_works() {
    let token: u128 = 1;
    let django: u128 = 4;
    let mut governor = Governor::new(token, 50);
    assert_eq!(
        governor.propose(0, django, 0, 1),
        Err(GovernorError::AmountShouldNotBeZero)
    );
    assert_eq!(
        governor.propose(0, django, 100, 0),
        Err(GovernorError::DurationError)
    );
    let result = governor.propose(0, django, 100, 1);
    assert_eq!(result, Ok(()));
    let proposal = governor.get_proposal(1).unwrap();
    let now: u64 = 0;
    assert_eq!(
        proposal,
        Proposal {
            to: django,
            amount: 100,
            vote_start: 0,
            vote_end: now + 1 * ONE_MINUTE,
            executed: false,
        }
    );
    assert_eq!(governor.next_proposal_id(), 1);
}

#[test]
fn quorum_not_reached() {
    let token: u128 = 1;
    let mut governor = Governor::new(token, 50);
    let result = governor.propose(0, 2, 100, 1);
    assert_eq!(result, Ok(()));
    assert_eq!(governor.next_proposal_id(), 1);
    let execute = governor.execute(1);
    assert_eq!(execute, Err(GovernorError::QuorumNotReached));
}

#[test]
fn propose_validates_before_any_write() {
    let mut governor = Governor::new(1, 50);
    assert_eq!(
        governor.propose(0, 2, 0, 0),
        Err(GovernorError::AmountShouldNotBeZero)
    );
    assert_eq!(
        governor.propose(0, 2, 5, 0),
        Err(GovernorError::DurationError)
    );
    assert_eq!(governor.next_proposal_id(), 0);
    assert_eq!(governor.get_proposal(1), None);
    assert_eq!(governor.get_proposal_votes(1), None);
}

#[test]
fn propose_assigns_sequential_ids_and_zeroed_tallies() {
    let mut governor = Governor::new(1, 50);
    assert_eq!(governor.propose(10, 2, 100, 1), Ok(()));
    assert_eq!(governor.next_proposal_id(), 1);
    assert_eq!(governor.propose(10, 3, 7, 2), Ok(()));
    assert_eq!(governor.next_proposal_id(), 2);
    assert_eq!(
        governor.get_proposal_votes(1),
        Some(ProposalVote {
            for_votes: 0,
            against_votes: 0,
        })
    );
    assert_eq!(
        governor.get_proposal_votes(2),
        Some(ProposalVote {
            for_votes: 0,
            against_votes: 0,
        })
    );
    let second = governor.get_proposal(2).unwrap();
    assert_eq!(second.to, 3);
    assert_eq!(second.amount, 7);
    assert_eq!(second.vote_start, 10);
    assert_eq!(second.vote_end, 10 + 2 * ONE_MINUTE);
    assert!(!second.executed);
}

#[test]
fn get_proposal_absent() {
    let governor = Governor::new(1, 50);
    assert_eq!(governor.get_proposal(0), None);
    assert_eq!(governor.get_proposal(1), None);
    assert_eq!(governor.get_proposal_votes(1), None);
}
