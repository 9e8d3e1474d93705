//! The four kinds of record of an election, and the rules that create and
//! change them.

use crate::address::Address;
use crate::error::VoteError;
use crate::schedule::{allowed_regions, allowed_states, default_schedule, state_schedule, MAX_PARTIES, MAX_PARTY_NAME, STATE_COUNT};
use vstd::prelude::*;
use vstd::string::StrSliceExecFns;

verus! {

/// The configuration of an election.
#[derive(Clone, Debug, PartialEq, Eq)]
pub struct ElectionConfig {
    /// The organizer: who may add parties and state tallies.
    pub authority: Address,
    /// No vote is accepted before this time.
    pub start_ts: i64,
    /// No vote is accepted after this time.
    pub end_ts: i64,
    /// What one vote costs the voter.
    pub vote_fee_lamports: u64,
    /// Votes cast so far, over all states.
    pub total_votes: u64,
    /// The calendar: entries `2 * d` and `2 * d + 1` vote on day `d`.
    pub state_schedule: Vec<u8>,
    /// Bump seed of the election's address.
    pub bump: u8,
}

/// The mathematical value of an [`ElectionConfig`].
pub struct ElectionConfigView {
    pub authority: Address,
    pub start_ts: i64,
    pub end_ts: i64,
    pub vote_fee_lamports: u64,
    pub total_votes: u64,
    pub state_schedule: Seq<u8>,
    pub bump: u8,
}

impl View for ElectionConfig {
    type V = ElectionConfigView;

    open spec fn view(&self) -> ElectionConfigView {
        ElectionConfigView {
            authority: self.authority,
            start_ts: self.start_ts,
            end_ts: self.end_ts,
            vote_fee_lamports: self.vote_fee_lamports,
            total_votes: self.total_votes,
            state_schedule: self.state_schedule@,
            bump: self.bump,
        }
    }
}

/// A party that stands in an election.
#[derive(Clone, Debug, PartialEq, Eq)]
pub struct Party {
    /// Address of the election.
    pub election: Address,
    /// The party's slot in every state tally.
    pub party_id: u8,
    /// The party's name, 1 to 50 characters.
    pub name: String,
    /// Bump seed of the party's address.
    pub bump: u8,
}

/// The mathematical value of a [`Party`].
pub struct PartyView {
    pub election: Address,
    pub party_id: u8,
    pub name: Seq<char>,
    pub bump: u8,
}

impl View for Party {
    type V = PartyView;

    open spec fn view(&self) -> PartyView {
        PartyView { election: self.election, party_id: self.party_id, name: self.name@, bump: self.bump }
    }
}

/// The tally of one state.
#[derive(Clone, Copy, Debug, PartialEq, Eq)]
pub struct StateVotes {
    /// Address of the election.
    pub election: Address,
    /// The state, 0 to 35.
    pub state_id: u8,
    /// Votes per party, indexed by party id.
    pub votes: [u64; 10],
    /// Votes cast in this state.
    pub total_votes: u64,
    /// Bump seed of the tally's address.
    pub bump: u8,
}

/// The mathematical value of a [`StateVotes`].
pub struct StateVotesView {
    pub election: Address,
    pub state_id: u8,
    pub votes: Seq<u64>,
    pub total_votes: u64,
    pub bump: u8,
}

impl View for StateVotes {
    type V = StateVotesView;

    open spec fn view(&self) -> StateVotesView {
        StateVotesView {
            election: self.election,
            state_id: self.state_id,
            votes: self.votes@,
            total_votes: self.total_votes,
            bump: self.bump,
        }
    }
}

/// Proof that a voter has voted in a state of an election.
#[derive(Clone, Copy, Debug, PartialEq, Eq)]
pub struct VoteRecord {
    /// Address of the election.
    pub election: Address,
    /// The state voted in.
    pub state_id: u8,
    /// Who voted.
    pub voter: Address,
    /// When the vote was cast.
    pub voted_at: i64,
    /// Bump seed of the record's address.
    pub bump: u8,
}

impl View for VoteRecord {
    type V = VoteRecord;

    open spec fn view(&self) -> VoteRecord {
        *self
    }
}

/// Why an election with these times cannot be created at `now`, if it cannot.
pub open spec fn election_error(now: i64, start_ts: i64, end_ts: i64) -> Option<VoteError> {
    if end_ts <= start_ts {
        Some(VoteError::InvalidTimeRange)
    } else if start_ts < now {
        Some(VoteError::StartInPast)
    } else {
        None
    }
}

/// The configuration of a newly created election.
pub open spec fn new_election(
    authority: Address,
    start_ts: i64,
    end_ts: i64,
    vote_fee_lamports: u64,
    bump: u8,
) -> ElectionConfigView {
    ElectionConfigView {
        authority,
        start_ts,
        end_ts,
        vote_fee_lamports,
        total_votes: 0,
        state_schedule: default_schedule(),
        bump,
    }
}

/// Why a party named `name` cannot be added at `now` to an election that
/// starts at `start_ts`, if it cannot.
pub open spec fn party_error(start_ts: i64, now: i64, name: Seq<char>) -> Option<VoteError> {
    if now >= start_ts {
        Some(VoteError::ElectionAlreadyStarted)
    } else if name.len() == 0 || name.len() > 50 {
        Some(VoteError::InvalidPartyName)
    } else {
        None
    }
}

/// Why the tally of state `state_id` cannot be created at `now` for an
/// election that starts at `start_ts`, if it cannot.
pub open spec fn state_votes_error(start_ts: i64, now: i64, state_id: u8) -> Option<VoteError> {
    if state_id > 35 {
        Some(VoteError::InvalidStateId)
    } else if now >= start_ts {
        Some(VoteError::ElectionAlreadyStarted)
    } else {
        None
    }
}

/// The tally of a state in which nobody has voted.
pub open spec fn new_state_votes(election: Address, state_id: u8, bump: u8) -> StateVotesView {
    StateVotesView { election, state_id, votes: Seq::new(10, |i: int| 0u64), total_votes: 0, bump }
}

/// Why a vote for party `party_id` in state `state_id` is not admitted at
/// `now`, if it is not: the time window, then the tally and the party, then
/// the calendar.
pub open spec fn ballot_error(
    election: ElectionConfigView,
    tally: StateVotesView,
    now: i64,
    state_id: u8,
    party_id: u8,
) -> Option<VoteError> {
    if now < election.start_ts {
        Some(VoteError::VotingNotStarted)
    } else if now > election.end_ts {
        Some(VoteError::VotingEnded)
    } else if tally.state_id != state_id {
        Some(VoteError::InvalidStateId)
    } else if party_id >= 10 {
        Some(VoteError::InvalidPartyId)
    } else {
        match allowed_states(election.state_schedule, election.start_ts, now) {
            None => Some(VoteError::VotingEnded),
            Some((first, second)) => if state_id == first || state_id == second {
                None
            } else {
                Some(VoteError::StateNotScheduledToday)
            },
        }
    }
}

/// Why one more vote for party `party_id` cannot be counted, if it cannot.
pub open spec fn count_error(election: ElectionConfigView, tally: StateVotesView, party_id: u8) -> Option<VoteError> {
    if party_id >= 10 {
        Some(VoteError::InvalidPartyId)
    } else if tally.votes[party_id as int] == u64::MAX || tally.total_votes == u64::MAX || election.total_votes
        == u64::MAX {
        Some(VoteError::VoteOverflow)
    } else {
        None
    }
}

/// The tally after one more vote for party `party_id`.
pub open spec fn counted_state_votes(tally: StateVotesView, party_id: u8) -> StateVotesView {
    StateVotesView {
        votes: tally.votes.update(party_id as int, (tally.votes[party_id as int] + 1) as u64),
        total_votes: (tally.total_votes + 1) as u64,
        ..tally
    }
}

/// The election after one more vote.
pub open spec fn counted_election(election: ElectionConfigView) -> ElectionConfigView {
    ElectionConfigView { total_votes: (election.total_votes + 1) as u64, ..election }
}

/// Decides whether an election with these times can be created at `now`.
pub fn check_election(now: i64, start_ts: i64, end_ts: i64) -> (checked: Result<(), VoteError>)
    ensures
        match checked {
            Ok(()) => election_error(now, start_ts, end_ts) is None,
            Err(error) => election_error(now, start_ts, end_ts) == Some(error),
        },
{
    if end_ts <= start_ts {
        Err(VoteError::InvalidTimeRange)
    } else if start_ts < now {
        Err(VoteError::StartInPast)
    } else {
        Ok(())
    }
}

/// Decides whether a party named `name` can be added to `election` at `now`.
pub fn check_party(election: &ElectionConfig, now: i64, name: &str) -> (checked: Result<(), VoteError>)
    ensures
        match checked {
            Ok(()) => party_error(election.start_ts, now, name@) is None,
            Err(error) => party_error(election.start_ts, now, name@) == Some(error),
        },
{
    if now >= election.start_ts {
        return Err(VoteError::ElectionAlreadyStarted);
    }
    let length = name.unicode_len();
    if length == 0 || length > MAX_PARTY_NAME {
        return Err(VoteError::InvalidPartyName);
    }
    Ok(())
}

/// Decides whether the tally of state `state_id` can be created for
/// `election` at `now`.
pub fn check_state_votes(election: &ElectionConfig, now: i64, state_id: u8) -> (checked: Result<(), VoteError>)
    ensures
        match checked {
            Ok(()) => state_votes_error(election.start_ts, now, state_id) is None,
            Err(error) => state_votes_error(election.start_ts, now, state_id) == Some(error),
        },
{
    if state_id >= STATE_COUNT {
        Err(VoteError::InvalidStateId)
    } else if now >= election.start_ts {
        Err(VoteError::ElectionAlreadyStarted)
    } else {
        Ok(())
    }
}

impl ElectionConfig {
    /// Creates the configuration of an election that `authority` organizes,
    /// with no votes and the calendar of 36 states.
    pub fn create(
        authority: Address,
        now: i64,
        start_ts: i64,
        end_ts: i64,
        vote_fee_lamports: u64,
        bump: u8,
    ) -> (created: Result<ElectionConfig, VoteError>)
        ensures
            match created {
                Ok(election) => election_error(now, start_ts, end_ts) is None && election@ == new_election(
                    authority,
                    start_ts,
                    end_ts,
                    vote_fee_lamports,
                    bump,
                ),
                Err(error) => election_error(now, start_ts, end_ts) == Some(error),
            },
    {
        match check_election(now, start_ts, end_ts) {
            Ok(()) => {},
            Err(error) => {
                return Err(error);
            },
        }
        Ok(
            ElectionConfig {
                authority,
                start_ts,
                end_ts,
                vote_fee_lamports,
                total_votes: 0,
                state_schedule: state_schedule(),
                bump,
            },
        )
    }

    /// The two states that may vote at `now`, or `None` once the calendar is used up.
    pub fn allowed_regions(&self, now: i64) -> (pair: Option<(u8, u8)>)
        ensures
            pair == allowed_states(self@.state_schedule, self.start_ts, now),
    {
        allowed_regions(&self.state_schedule, self.start_ts, now)
    }
}

impl Party {
    /// Creates party `party_id` of the election kept at `election_address`,
    /// which is allowed only before voting opens.
    pub fn create(
        election: &ElectionConfig,
        election_address: Address,
        now: i64,
        party_id: u8,
        name: String,
        bump: u8,
    ) -> (created: Result<Party, VoteError>)
        ensures
            match created {
                Ok(party) => party_error(election.start_ts, now, name@) is None && party@ == (PartyView {
                    election: election_address,
                    party_id,
                    name: name@,
                    bump,
                }),
                Err(error) => party_error(election.start_ts, now, name@) == Some(error),
            },
    {
        match check_party(election, now, name.as_str()) {
            Ok(()) => {},
            Err(error) => {
                return Err(error);
            },
        }
        Ok(Party { election: election_address, party_id, name, bump })
    }
}

impl StateVotes {
    /// Creates the empty tally of state `state_id` of the election kept at
    /// `election_address`, which is allowed only before voting opens.
    pub fn create(
        election: &ElectionConfig,
        election_address: Address,
        now: i64,
        state_id: u8,
        bump: u8,
    ) -> (created: Result<StateVotes, VoteError>)
        ensures
            match created {
                Ok(tally) => state_votes_error(election.start_ts, now, state_id) is None && tally@
                    == new_state_votes(election_address, state_id, bump),
                Err(error) => state_votes_error(election.start_ts, now, state_id) == Some(error),
            },
    {
        match check_state_votes(election, now, state_id) {
            Ok(()) => {},
            Err(error) => {
                return Err(error);
            },
        }
        let tally = StateVotes { election: election_address, state_id, votes: [0u64; MAX_PARTIES], total_votes: 0, bump };
        assert(tally@.votes =~= Seq::new(10, |i: int| 0u64));
        Ok(tally)
    }
}

impl VoteRecord {
    /// The record of `voter`'s vote at `now` in state `state_id`.
    pub fn create(election_address: Address, state_id: u8, voter: Address, now: i64, bump: u8) -> (record:
        VoteRecord)
        ensures
            record == (VoteRecord { election: election_address, state_id, voter, voted_at: now, bump }),
    {
        VoteRecord { election: election_address, state_id, voter, voted_at: now, bump }
    }
}

/// Decides whether a vote for party `party_id` in state `state_id` is
/// admitted at `now`, given the election and the tally supplied for it.
pub fn check_ballot(election: &ElectionConfig, tally: &StateVotes, now: i64, state_id: u8, party_id: u8) -> (checked:
    Result<(), VoteError>)
    ensures
        match checked {
            Ok(()) => ballot_error(election@, tally@, now, state_id, party_id) is None,
            Err(error) => ballot_error(election@, tally@, now, state_id, party_id) == Some(error),
        },
{
    if now < election.start_ts {
        return Err(VoteError::VotingNotStarted);
    }
    if now > election.end_ts {
        return Err(VoteError::VotingEnded);
    }
    if tally.state_id != state_id {
        return Err(VoteError::InvalidStateId);
    }
    if party_id as usize >= MAX_PARTIES {
        return Err(VoteError::InvalidPartyId);
    }
    match election.allowed_regions(now) {
        None => Err(VoteError::VotingEnded),
        Some((first, second)) => {
            if state_id == first || state_id == second {
                Ok(())
            } else {
                Err(VoteError::StateNotScheduledToday)
            }
        },
    }
}

/// Decides whether one more vote for party `party_id` can be counted.
pub fn check_count(election: &ElectionConfig, tally: &StateVotes, party_id: u8) -> (checked: Result<(), VoteError>)
    ensures
        match checked {
            Ok(()) => count_error(election@, tally@, party_id) is None,
            Err(error) => count_error(election@, tally@, party_id) == Some(error),
        },
{
    if party_id as usize >= MAX_PARTIES {
        return Err(VoteError::InvalidPartyId);
    }
    if tally.votes[party_id as usize] == u64::MAX || tally.total_votes == u64::MAX || election.total_votes
        == u64::MAX {
        return Err(VoteError::VoteOverflow);
    }
    Ok(())
}

/// Counts one vote for party `party_id`: the party's counter, the state's
/// total and the election's total each grow by one, or none of them changes.
pub fn count_ballot(election: &mut ElectionConfig, tally: &mut StateVotes, party_id: u8) -> (counted: Result<
    (),
    VoteError,
>)
    ensures
        match counted {
            Ok(()) => {
                &&& count_error(old(election)@, old(tally)@, party_id) is None
                &&& final(election)@ == counted_election(old(election)@)
                &&& final(tally)@ == counted_state_votes(old(tally)@, party_id)
            },
            Err(error) => {
                &&& count_error(old(election)@, old(tally)@, party_id) == Some(error)
                &&& *final(election) == *old(election)
                &&& *final(tally) == *old(tally)
            },
        },
{
    match check_count(election, tally, party_id) {
        Ok(()) => {},
        Err(error) => {
            return Err(error);
        },
    }
    let slot: usize = party_id as usize;
    tally.votes[slot] = tally.votes[slot] + 1;
    tally.total_votes = tally.total_votes + 1;
    election.total_votes = election.total_votes + 1;
    assert(tally@.votes =~= counted_state_votes(old(tally)@, party_id).votes);
    Ok(())
}

} // verus!
