//! A time-boxed, fee-gated election: parties, a calendar that opens two of 36
//! states per day, per-state tallies and one vote per voter and state.
//!
//! The records of an election are kept in a [`Ledger`] at addresses derived
//! from their keys. The four transactions, [`initialize_election`],
//! [`add_party`], [`init_state_votes`] and [`cast_vote`], check every rule
//! before they change anything.

pub mod address;
pub mod error;
pub mod instructions;
pub mod laws;
pub mod ledger;
pub mod records;
pub mod schedule;
pub mod system;
pub mod table;

pub use crate::address::Address;
pub use crate::error::{TxError, VoteError};
pub use crate::instructions::{
    add_party, add_party_at, cast_vote, cast_vote_at, init_state_votes, init_state_votes_at, initialize_election,
    initialize_election_at, AddParty, CasteVote, InitStateVotes, InitializeElection,
};
pub use crate::ledger::Ledger;
pub use crate::records::{ElectionConfig, Party, StateVotes, VoteRecord};
