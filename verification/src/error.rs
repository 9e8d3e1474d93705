//! Why an operation on an election is refused.

use vstd::prelude::*;

verus! {

/// A rule of the election that a request broke.
#[derive(Clone, Copy, Debug, PartialEq, Eq, Structural)]
pub enum VoteError {
    /// The end time is not after the start time.
    InvalidTimeRange,
    /// The start time lies before the current time.
    StartInPast,
    /// Set-up was attempted once voting had opened.
    ElectionAlreadyStarted,
    /// The party name is empty or longer than 50 characters.
    InvalidPartyName,
    /// The state id is above 35, or is not the id of the tally supplied.
    InvalidStateId,
    /// The vote came before the start time.
    VotingNotStarted,
    /// The vote came after the end time, or after the calendar's last day.
    VotingEnded,
    /// The party id is not below 10.
    InvalidPartyId,
    /// A vote counter is at its maximum.
    VoteOverflow,
    /// The state is not one of the two that vote on the current day.
    StateNotScheduledToday,
    /// An index computation left its range. Days are counted without
    /// wrapping here, so no operation of this library gives this error.
    MathOverflow,
}

/// Why a transaction on the ledger was aborted. An aborted transaction
/// leaves the ledger as it was.
#[derive(Clone, Copy, Debug, PartialEq, Eq, Structural)]
pub enum TxError {
    /// A rule of the election was broken.
    Vote(VoteError),
    /// The caller is not the organizer of the election.
    Unauthorized,
    /// A record already exists at the address where one was to be created.
    AddressInUse,
    /// The address named for a record is not the one derived from its key,
    /// or the record named belongs to another election.
    AddressMismatch,
    /// No address could be derived for the record's key.
    AddressNotFound,
    /// No record of the expected kind is kept at the address named.
    RecordNotFound,
    /// The payer's balance does not cover the amount.
    InsufficientFunds,
    /// The receiver's balance cannot hold the amount.
    BalanceOverflow,
    /// The instruction is not a transfer between two accounts.
    UnsupportedInstruction,
}

impl VoteError {
    /// The text that describes each rule.
    pub open spec fn message_text(self) -> Seq<char> {
        match self {
            VoteError::InvalidTimeRange => "End time must be after start time"@,
            VoteError::StartInPast => "Start time cannot be in the past"@,
            VoteError::ElectionAlreadyStarted => "Election has already started"@,
            VoteError::InvalidPartyName => "Invalid party name"@,
            VoteError::InvalidStateId => "Invalid state ID"@,
            VoteError::VotingNotStarted => "Voting has not started"@,
            VoteError::VotingEnded => "Voting has ended"@,
            VoteError::InvalidPartyId => "Invalid party ID"@,
            VoteError::VoteOverflow => "Vote counter overflow"@,
            VoteError::StateNotScheduledToday => "State is not scheduled to vote today"@,
            VoteError::MathOverflow => "Math Overflow"@,
        }
    }

    /// A short description of the rule that was broken.
    pub fn message(&self) -> (text: &'static str)
        ensures
            text@ == self.message_text(),
    {
        match self {
            VoteError::InvalidTimeRange => "End time must be after start time",
            VoteError::StartInPast => "Start time cannot be in the past",
            VoteError::ElectionAlreadyStarted => "Election has already started",
            VoteError::InvalidPartyName => "Invalid party name",
            VoteError::InvalidStateId => "Invalid state ID",
            VoteError::VotingNotStarted => "Voting has not started",
            VoteError::VotingEnded => "Voting has ended",
            VoteError::InvalidPartyId => "Invalid party ID",
            VoteError::VoteOverflow => "Vote counter overflow",
            VoteError::StateNotScheduledToday => "State is not scheduled to vote today",
            VoteError::MathOverflow => "Math Overflow",
        }
    }
}

} // verus!
