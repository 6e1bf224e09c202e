//! Execution tests: quorum and majority gating, single-shot execution, and
//! the fail-closed handling of a rejected transfer.

use dao::governor::settle_execution;
use dao::governor::Governor;
use dao::governor::GovernorError;
use dao::governor::TokenTransfer;
use dao::tally::VoteType;

#[test]
fn execute_on_missing_proposal_fails() {
    let mut governor = Governor::new(1, 50);
    assert_eq!(
        governor.execute(1),
        Err(GovernorError::ProposalNotFound)
    );
    assert_eq!(
        governor.execute(0),
        Err(GovernorError::ProposalNotFound)
    );
}

#[test]
fn execute_below_quorum_fails() {
    let mut governor = Governor::new(1, 50);
    assert_eq!(governor.propose(0, 9, 100, 1), Ok(()));
    // 30 + 10 = 40 weight points, short of the quorum of 50.
    assert_eq!(governor.vote(0, 2, 30, 100, 1, VoteType::For), Ok(()));
    assert_eq!(governor.vote(0, 3, 10, 100, 1, VoteType::Against), Ok(()));
    assert_eq!(
        governor.execute(1),
        Err(GovernorError::QuorumNotReached)
    );
    // The proposal stays executable once the quorum is met later.
    assert!(!governor.get_proposal(1).unwrap().executed);
}

#[test]
fn execute_tie_is_not_accepted() {
    let mut governor = Governor::new(1, 50);
    assert_eq!(governor.propose(0, 9, 100, 1), Ok(()));
    assert_eq!(governor.vote(0, 2, 30, 100, 1, VoteType::For), Ok(()));
    assert_eq!(governor.vote(0, 3, 30, 100, 1, VoteType::Against), Ok(()));
    assert_eq!(
        governor.execute(1),
        Err(GovernorError::ProposalNotAccepted)
    );
}

#[test]
fn execute_against_majority_is_not_accepted() {
    let mut governor = Governor::new(1, 50);
    assert_eq!(governor.propose(0, 9, 100, 1), Ok(()));
    assert_eq!(governor.vote(0, 2, 20, 100, 1, VoteType::For), Ok(()));
    assert_eq!(governor.vote(0, 3, 40, 100, 1, VoteType::Against), Ok(()));
    assert_eq!(
        governor.execute(1),
        Err(GovernorError::ProposalNotAccepted)
    );
}

#[test]
fn execute_passes_gates_and_issues_one_transfer() {
    let mut governor = Governor::new(1, 50);
    assert_eq!(governor.propose(0, 9, 100, 1), Ok(()));
    assert_eq!(governor.vote(0, 2, 60, 100, 1, VoteType::For), Ok(()));
    assert_eq!(
        governor.execute(1),
        Ok(TokenTransfer { to: 9, amount: 100 })
    );
    assert!(governor.get_proposal(1).unwrap().executed);
    // A second call never issues a second transfer.
    assert_eq!(
        governor.execute(1),
        Err(GovernorError::ProposalAlreadyExecuted)
    );
}

#[test]
fn rejected_transfer_still_blocks_re_execution() {
    let mut governor = Governor::new(1, 50);
    assert_eq!(governor.propose(0, 9, 100, 1), Ok(()));
    assert_eq!(governor.vote(0, 2, 60, 100, 1, VoteType::For), Ok(()));
    // The gates pass and `executed` is durably set before the payout is
    // attempted; the oracle then rejects the transfer, the operation
    // surfaces `TxFailed`, and the proposal can never be retried.
    assert_eq!(
        governor.execute(1),
        Ok(TokenTransfer { to: 9, amount: 100 })
    );
    assert_eq!(settle_execution(false), Err(GovernorError::TxFailed));
    assert_eq!(settle_execution(true), Ok(()));
    assert!(governor.get_proposal(1).unwrap().executed);
    assert_eq!(
        governor.execute(1),
        Err(GovernorError::ProposalAlreadyExecuted)
    );
}

#[test]
fn end_to_end_accepted_proposal() {
    let beneficiary: u128 = 11;
    let mut governor = Governor::new(1, 50);
    assert_eq!(governor.propose(0, beneficiary, 100, 1), Ok(()));
    assert_eq!(governor.next_proposal_id(), 1);
    assert_eq!(governor.vote(0, 2, 60, 100, 1, VoteType::For), Ok(()));
    assert_eq!(governor.get_proposal_votes(1).unwrap().for_votes, 60);
    assert_eq!(
        governor.execute(1),
        Ok(TokenTransfer {
            to: beneficiary,
            amount: 100,
        })
    );
    assert_eq!(
        governor.execute(1),
        Err(GovernorError::ProposalAlreadyExecuted)
    );
}
