//! What holds of every election, whatever the order of its transactions.

use crate::address::Address;
use crate::error::{TxError, VoteError};
use crate::instructions::{
    add_party_outcome, cast_vote_outcome, claim_error, init_state_votes_outcome, initialize_election_outcome, AddParty,
    CasteVote, InitStateVotes, InitializeElection,
};
use crate::ledger::LedgerView;
use crate::records::ballot_error;
use crate::schedule::allowed_states;
use vstd::prelude::*;

verus! {

/// An election whose start is not in the past and whose end is after its
/// start is created wherever its address is free: with no votes and with a
/// calendar of 36 entries that lists the states 0 to 35 in rising order, so
/// that day `d` opens the states `2 * d` and `2 * d + 1`.
pub proof fn lemma_valid_times_create_election(
    ledger: LedgerView,
    ctx: InitializeElection,
    found: Option<(Address, u8)>,
    now: i64,
    start_ts: i64,
    end_ts: i64,
    vote_fee_lamports: u64,
)
    requires
        now <= start_ts < end_ts,
        claim_error(ledger, ctx.election, found) is None,
    ensures
        initialize_election_outcome(ledger, ctx, found, now, start_ts, end_ts, vote_fee_lamports) matches Ok(next)
            && {
            let election = next.elections[ctx.election];
            &&& next.elections.contains_key(ctx.election)
            &&& election.authority == ctx.authority
            &&& election.start_ts == start_ts
            &&& election.end_ts == end_ts
            &&& election.vote_fee_lamports == vote_fee_lamports
            &&& election.total_votes == 0
            &&& election.state_schedule.len() == 36
            &&& forall|i: int| 0 <= i < 36 ==> election.state_schedule[i] == i
            &&& forall|d: int|
                0 <= d < 18 ==> election.state_schedule[2 * d] + 1 == #[trigger] election.state_schedule[2 * d + 1]
        },
{
}

/// An election whose start lies in the past is refused, whatever else holds.
pub proof fn lemma_start_in_past_is_refused(
    ledger: LedgerView,
    ctx: InitializeElection,
    found: Option<(Address, u8)>,
    now: i64,
    start_ts: i64,
    end_ts: i64,
    vote_fee_lamports: u64,
)
    requires
        start_ts < now,
        start_ts < end_ts,
    ensures
        initialize_election_outcome(ledger, ctx, found, now, start_ts, end_ts, vote_fee_lamports) == Err::<
            LedgerView,
            TxError,
        >(TxError::Vote(VoteError::StartInPast)),
{
}

/// Once voting has opened no party is added, whatever its name and whoever asks.
pub proof fn lemma_no_party_after_start(
    ledger: LedgerView,
    ctx: AddParty,
    found: Option<(Address, u8)>,
    now: i64,
    party_id: u8,
    name: Seq<char>,
)
    requires
        ledger.elections.contains_key(ctx.election),
        now >= ledger.elections[ctx.election].start_ts,
    ensures
        add_party_outcome(ledger, ctx, found, now, party_id, name) == Err::<LedgerView, TxError>(
            TxError::Vote(VoteError::ElectionAlreadyStarted),
        ),
{
}

/// Before voting opens the organizer adds a party under any name of 1 to 50
/// characters wherever its address is free, and under no other name.
pub proof fn lemma_party_name_length_decides(
    ledger: LedgerView,
    ctx: AddParty,
    found: Option<(Address, u8)>,
    now: i64,
    party_id: u8,
    name: Seq<char>,
)
    requires
        ledger.elections.contains_key(ctx.election),
        now < ledger.elections[ctx.election].start_ts,
        ledger.elections[ctx.election].authority == ctx.authority,
        claim_error(ledger, ctx.party, found) is None,
    ensures
        1 <= name.len() <= 50 ==> add_party_outcome(ledger, ctx, found, now, party_id, name) is Ok,
        !(1 <= name.len() <= 50) ==> add_party_outcome(ledger, ctx, found, now, party_id, name) == Err::<
            LedgerView,
            TxError,
        >(TxError::Vote(VoteError::InvalidPartyName)),
{
}

/// Before voting opens the organizer creates the tally of any state up to 35
/// wherever its address is free; a state above 35 is refused whatever else holds.
pub proof fn lemma_state_id_decides(
    ledger: LedgerView,
    ctx: InitStateVotes,
    found: Option<(Address, u8)>,
    now: i64,
    state_id: u8,
)
    requires
        ledger.elections.contains_key(ctx.election),
    ensures
        state_id > 35 ==> init_state_votes_outcome(ledger, ctx, found, now, state_id) == Err::<LedgerView, TxError>(
            TxError::Vote(VoteError::InvalidStateId),
        ),
        state_id <= 35 && now < ledger.elections[ctx.election].start_ts && ledger.elections[ctx.election].authority
            == ctx.authority && claim_error(ledger, ctx.state_votes, found) is None ==> init_state_votes_outcome(
            ledger,
            ctx,
            found,
            now,
            state_id,
        ) is Ok,
{
}

/// A vote in a state that is not one of the two open at `now` is refused as
/// not scheduled, and so changes no counter and no balance.
pub proof fn lemma_unscheduled_state_is_refused(
    ledger: LedgerView,
    ctx: CasteVote,
    found: Option<(Address, u8)>,
    now: i64,
    state_id: u8,
    party_id: u8,
)
    requires
        ledger.elections.contains_key(ctx.election),
        ledger.state_votes.contains_key(ctx.state_votes),
        ledger.state_votes[ctx.state_votes].election == ctx.election,
        ledger.state_votes[ctx.state_votes].state_id == state_id,
        ledger.elections[ctx.election].start_ts <= now <= ledger.elections[ctx.election].end_ts,
        party_id < 10,
        allowed_states(
            ledger.elections[ctx.election].state_schedule,
            ledger.elections[ctx.election].start_ts,
            now,
        ) matches Some((first, second)) && state_id != first && state_id != second,
    ensures
        cast_vote_outcome(ledger, ctx, found, now, state_id, party_id) == Err::<LedgerView, TxError>(
            TxError::Vote(VoteError::StateNotScheduledToday),
        ),
{
}

/// A vote that succeeds adds exactly one to the party's counter, to the
/// state's total and to the election's total, leaves the other parties'
/// counters as they were, keeps a record of the vote, and moves the fee from
/// the voter to the organizer.
pub proof fn lemma_vote_counts_once(
    ledger: LedgerView,
    ctx: CasteVote,
    found: Option<(Address, u8)>,
    now: i64,
    state_id: u8,
    party_id: u8,
)
    requires
        ledger.state_votes.contains_key(ctx.state_votes) ==> ledger.state_votes[ctx.state_votes].votes.len() == 10,
        cast_vote_outcome(ledger, ctx, found, now, state_id, party_id) is Ok,
    ensures
        ({
            let next = cast_vote_outcome(ledger, ctx, found, now, state_id, party_id)->Ok_0;
            let election = ledger.elections[ctx.election];
            let tally = ledger.state_votes[ctx.state_votes];
            let fee = election.vote_fee_lamports;
            &&& party_id < 10
            &&& next.elections[ctx.election].total_votes == election.total_votes + 1
            &&& next.state_votes[ctx.state_votes].total_votes == tally.total_votes + 1
            &&& next.state_votes[ctx.state_votes].votes[party_id as int] == tally.votes[party_id as int] + 1
            &&& forall|other: int|
                0 <= other < 10 && other != party_id ==> next.state_votes[ctx.state_votes].votes[other]
                    == tally.votes[other]
            &&& !ledger.occupied(ctx.voter_record)
            &&& next.vote_records.contains_key(ctx.voter_record)
            &&& next.vote_records[ctx.voter_record].voter == ctx.voter
            &&& next.vote_records[ctx.voter_record].state_id == state_id
            &&& next.vote_records[ctx.voter_record].election == ctx.election
            &&& ctx.voter != election.authority ==> {
                &&& next.balance(ctx.voter) == ledger.balance(ctx.voter) - fee
                &&& next.balance(election.authority) == ledger.balance(election.authority) + fee
            }
            &&& ctx.voter == election.authority ==> next.balance(ctx.voter) == ledger.balance(ctx.voter)
        }),
{
}

/// A vote that would carry any of the three counters past its maximum is
/// refused, so that none of them changes.
pub proof fn lemma_full_counter_refuses_vote(
    ledger: LedgerView,
    ctx: CasteVote,
    found: Option<(Address, u8)>,
    now: i64,
    state_id: u8,
    party_id: u8,
)
    requires
        ledger.elections.contains_key(ctx.election),
        ledger.state_votes.contains_key(ctx.state_votes),
        party_id < 10,
        ledger.elections[ctx.election].total_votes == u64::MAX || ledger.state_votes[ctx.state_votes].total_votes
            == u64::MAX || ledger.state_votes[ctx.state_votes].votes[party_id as int] == u64::MAX,
    ensures
        cast_vote_outcome(ledger, ctx, found, now, state_id, party_id) is Err,
        ballot_error(
            ledger.elections[ctx.election],
            ledger.state_votes[ctx.state_votes],
            now,
            state_id,
            party_id,
        ) is None && ledger.state_votes[ctx.state_votes].election == ctx.election && crate::ledger::transfer_error(
            ledger.balances,
            ctx.voter,
            ledger.elections[ctx.election].authority,
            ledger.elections[ctx.election].vote_fee_lamports,
        ) is None ==> cast_vote_outcome(ledger, ctx, found, now, state_id, party_id) == Err::<LedgerView, TxError>(
            TxError::Vote(VoteError::VoteOverflow),
        ),
{
}

/// Nobody votes twice in a state: once a vote has succeeded, every later
/// vote of the same voter in the same state of the same election is
/// refused, at whatever time and for whatever party, because its record
/// would have to be kept where the first one is. Where it names that
/// address and nothing else is wrong with it, the refusal is `AddressInUse`.
pub proof fn lemma_second_vote_is_refused(
    ledger: LedgerView,
    first: CasteVote,
    second: CasteVote,
    found: Option<(Address, u8)>,
    now: i64,
    later: i64,
    state_id: u8,
    party_id: u8,
    other_party: u8,
)
    requires
        cast_vote_outcome(ledger, first, found, now, state_id, party_id) is Ok,
        second.election == first.election,
        second.voter == first.voter,
    ensures
        ({
            let next = cast_vote_outcome(ledger, first, found, now, state_id, party_id)->Ok_0;
            let again = cast_vote_outcome(next, second, found, later, state_id, other_party);
            &&& again is Err
            &&& claim_error(next, second.voter_record, found) is Some
            &&& second.voter_record == first.voter_record ==> claim_error(next, second.voter_record, found) == Some(
                TxError::AddressInUse,
            )
        }),
{
}

} // verus!
