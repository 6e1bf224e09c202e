//! A token-weighted governance engine.
//!
//! Account holders of a reference fungible token create spending proposals,
//! cast votes weighted by their share of the token supply, and — once a
//! proposal clears a quorum and majority threshold — trigger a one-time fund
//! transfer to the proposal's beneficiary.
//!
//! The engine itself is a pure, serialized state machine: the hosting
//! environment supplies the clock reading, the caller's identity, and the
//! token oracle's answers (balance, total supply, transfer outcome) as plain
//! values, and performs the one outbound transfer that a successful
//! `execute` issues.

pub mod governor;
pub mod tally;

pub use governor::settle_execution;
pub use governor::AccountId;
pub use governor::Balance;
pub use governor::Governor;
pub use governor::GovernorError;
pub use governor::Proposal;
pub use governor::ProposalId;
pub use governor::Timestamp;
pub use governor::TokenTransfer;
pub use tally::ProposalVote;
pub use tally::VoteType;
