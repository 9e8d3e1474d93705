//! The four transactions of an election. Each names the accounts it works
//! on, checks every rule before it changes anything, and either commits all
//! of its changes to the ledger or none.

use crate::address::{
    derived_address, election_address, election_seeds, party_address, party_seeds, state_votes_address,
    state_votes_seeds, vote_record_address, vote_record_seeds, Address,
};
use crate::error::TxError;
use crate::ledger::{transfer_error, transferred, Ledger, LedgerView};
use crate::records::{
    ballot_error, check_ballot, check_count, check_election, check_party, check_state_votes, count_error,
    counted_election, counted_state_votes, election_error, new_election, new_state_votes, party_error,
    state_votes_error, ElectionConfig, Party, PartyView, StateVotes, VoteRecord,
};
use crate::system::transfer_instruction;
use vstd::prelude::*;

verus! {

/// The accounts of `initialize_election`.
#[derive(Clone, Copy, Debug, PartialEq, Eq)]
pub struct InitializeElection {
    /// Where the election is to be kept.
    pub election: Address,
    /// The signer, who becomes the organizer.
    pub authority: Address,
}

/// The accounts of `add_party`.
#[derive(Clone, Copy, Debug, PartialEq, Eq)]
pub struct AddParty {
    /// Where the party is to be kept.
    pub party: Address,
    /// The election that the party joins.
    pub election: Address,
    /// The signer, who must be the organizer.
    pub authority: Address,
}

/// The accounts of `init_state_votes`.
#[derive(Clone, Copy, Debug, PartialEq, Eq)]
pub struct InitStateVotes {
    /// Where the tally is to be kept.
    pub state_votes: Address,
    /// The election that the tally belongs to.
    pub election: Address,
    /// The signer, who must be the organizer.
    pub authority: Address,
}

/// The accounts of `cast_vote`.
#[derive(Clone, Copy, Debug, PartialEq, Eq)]
pub struct CasteVote {
    /// The election voted in.
    pub election: Address,
    /// The tally supplied for the state voted in.
    pub state_votes: Address,
    /// Where the record of the vote is to be kept.
    pub voter_record: Address,
    /// The signer, who votes and pays the fee.
    pub voter: Address,
}

/// A transaction has ended as `outcome` says: it succeeded and left the
/// ledger in the state given, or it failed with the error given and left the
/// ledger as it was.
pub open spec fn committed(
    before: LedgerView,
    after: LedgerView,
    result: Result<(), TxError>,
    outcome: Result<LedgerView, TxError>,
) -> bool {
    match outcome {
        Ok(next) => result is Ok && after == next,
        Err(error) => result == Err::<(), TxError>(error) && after == before,
    }
}

/// The bump seed that the search found, or 0 where it found no address.
pub open spec fn found_bump(found: Option<(Address, u8)>) -> u8 {
    match found {
        Some((address, bump)) => bump,
        None => 0,
    }
}

/// Why no record can be created at `named`, if none can: a record is created
/// only at the address found for its key, and only where none is kept yet.
pub open spec fn claim_error(ledger: LedgerView, named: Address, found: Option<(Address, u8)>) -> Option<TxError> {
    match found {
        None => Some(TxError::AddressNotFound),
        Some((address, bump)) => if named != address {
            Some(TxError::AddressMismatch)
        } else if ledger.occupied(address) {
            Some(TxError::AddressInUse)
        } else {
            None
        },
    }
}

/// What `initialize_election` does when the search for the election's
/// address has ended as `found` says.
pub open spec fn initialize_election_outcome(
    ledger: LedgerView,
    ctx: InitializeElection,
    found: Option<(Address, u8)>,
    now: i64,
    start_ts: i64,
    end_ts: i64,
    vote_fee_lamports: u64,
) -> Result<LedgerView, TxError> {
    if let Some(error) = election_error(now, start_ts, end_ts) {
        Err(TxError::Vote(error))
    } else if let Some(error) = claim_error(ledger, ctx.election, found) {
        Err(error)
    } else {
        Ok(
            LedgerView {
                elections: ledger.elections.insert(
                    ctx.election,
                    new_election(ctx.authority, start_ts, end_ts, vote_fee_lamports, found_bump(found)),
                ),
                ..ledger
            },
        )
    }
}

/// What `add_party` does when the search for the party's address has ended
/// as `found` says.
pub open spec fn add_party_outcome(
    ledger: LedgerView,
    ctx: AddParty,
    found: Option<(Address, u8)>,
    now: i64,
    party_id: u8,
    name: Seq<char>,
) -> Result<LedgerView, TxError> {
    if !ledger.elections.contains_key(ctx.election) {
        Err(TxError::RecordNotFound)
    } else if let Some(error) = party_error(ledger.elections[ctx.election].start_ts, now, name) {
        Err(TxError::Vote(error))
    } else if ledger.elections[ctx.election].authority != ctx.authority {
        Err(TxError::Unauthorized)
    } else if let Some(error) = claim_error(ledger, ctx.party, found) {
        Err(error)
    } else {
        Ok(
            LedgerView {
                parties: ledger.parties.insert(
                    ctx.party,
                    PartyView { election: ctx.election, party_id, name, bump: found_bump(found) },
                ),
                ..ledger
            },
        )
    }
}

/// What `init_state_votes` does when the search for the tally's address has
/// ended as `found` says.
pub open spec fn init_state_votes_outcome(
    ledger: LedgerView,
    ctx: InitStateVotes,
    found: Option<(Address, u8)>,
    now: i64,
    state_id: u8,
) -> Result<LedgerView, TxError> {
    if !ledger.elections.contains_key(ctx.election) {
        Err(TxError::RecordNotFound)
    } else if let Some(error) = state_votes_error(ledger.elections[ctx.election].start_ts, now, state_id) {
        Err(TxError::Vote(error))
    } else if ledger.elections[ctx.election].authority != ctx.authority {
        Err(TxError::Unauthorized)
    } else if let Some(error) = claim_error(ledger, ctx.state_votes, found) {
        Err(error)
    } else {
        Ok(
            LedgerView {
                state_votes: ledger.state_votes.insert(
                    ctx.state_votes,
                    new_state_votes(ctx.election, state_id, found_bump(found)),
                ),
                ..ledger
            },
        )
    }
}

/// What `cast_vote` does when the search for the vote record's address has
/// ended as `found` says. The checks come in this order: the election and
/// the tally are kept and belong together; the vote is admitted at `now`;
/// the fee can be paid; the counters can grow; the vote record can be
/// created, which it cannot where the voter has voted in the state before.
pub open spec fn cast_vote_outcome(
    ledger: LedgerView,
    ctx: CasteVote,
    found: Option<(Address, u8)>,
    now: i64,
    state_id: u8,
    party_id: u8,
) -> Result<LedgerView, TxError> {
    if !ledger.elections.contains_key(ctx.election) || !ledger.state_votes.contains_key(ctx.state_votes) {
        Err(TxError::RecordNotFound)
    } else {
        let election = ledger.elections[ctx.election];
        let tally = ledger.state_votes[ctx.state_votes];
        if tally.election != ctx.election {
            Err(TxError::AddressMismatch)
        } else if let Some(error) = ballot_error(election, tally, now, state_id, party_id) {
            Err(TxError::Vote(error))
        } else if let Some(error) = transfer_error(
            ledger.balances,
            ctx.voter,
            election.authority,
            election.vote_fee_lamports,
        ) {
            Err(error)
        } else if let Some(error) = count_error(election, tally, party_id) {
            Err(TxError::Vote(error))
        } else if let Some(error) = claim_error(ledger, ctx.voter_record, found) {
            Err(error)
        } else {
            Ok(
                LedgerView {
                    balances: transferred(
                        ledger.balances,
                        ctx.voter,
                        election.authority,
                        election.vote_fee_lamports,
                    ),
                    elections: ledger.elections.insert(ctx.election, counted_election(election)),
                    state_votes: ledger.state_votes.insert(ctx.state_votes, counted_state_votes(tally, party_id)),
                    vote_records: ledger.vote_records.insert(
                        ctx.voter_record,
                        VoteRecord {
                            election: ctx.election,
                            state_id,
                            voter: ctx.voter,
                            voted_at: now,
                            bump: found_bump(found),
                        },
                    ),
                    ..ledger
                },
            )
        }
    }
}

/// Decides whether a record can be created at `named`, and with which bump.
pub fn claim(ledger: &Ledger, named: &Address, found: Option<(Address, u8)>) -> (claimed: Result<u8, TxError>)
    requires
        ledger.wf(),
    ensures
        match claimed {
            Ok(bump) => claim_error(ledger@, *named, found) is None && found == Some((*named, bump)),
            Err(error) => claim_error(ledger@, *named, found) == Some(error),
        },
{
    match found {
        None => Err(TxError::AddressNotFound),
        Some((address, bump)) => {
            if !named.same_as(&address) {
                Err(TxError::AddressMismatch)
            } else if ledger.is_occupied(&address) {
                Err(TxError::AddressInUse)
            } else {
                Ok(bump)
            }
        },
    }
}

/// Creates an election, given what the search for its address found.
pub fn initialize_election_at(
    ledger: &mut Ledger,
    ctx: &InitializeElection,
    found: Option<(Address, u8)>,
    now: i64,
    start_ts: i64,
    end_ts: i64,
    vote_fee_lamports: u64,
) -> (result: Result<(), TxError>)
    requires
        old(ledger).wf(),
    ensures
        final(ledger).wf(),
        committed(
            old(ledger)@,
            final(ledger)@,
            result,
            initialize_election_outcome(old(ledger)@, *ctx, found, now, start_ts, end_ts, vote_fee_lamports),
        ),
{
    match check_election(now, start_ts, end_ts) {
        Ok(()) => {},
        Err(error) => {
            return Err(TxError::Vote(error));
        },
    }
    let bump = match claim(ledger, &ctx.election, found) {
        Ok(bump) => bump,
        Err(error) => {
            return Err(error);
        },
    };
    match ElectionConfig::create(ctx.authority, now, start_ts, end_ts, vote_fee_lamports, bump) {
        Ok(election) => {
            ledger.put_election(ctx.election, election);
            Ok(())
        },
        Err(error) => Err(TxError::Vote(error)),
    }
}

/// Creates the election that `ctx.authority` organizes: with no votes, the
/// calendar of 36 states, and the times and fee given.
pub fn initialize_election(
    ledger: &mut Ledger,
    ctx: &InitializeElection,
    now: i64,
    start_ts: i64,
    end_ts: i64,
    vote_fee_lamports: u64,
) -> (result: Result<(), TxError>)
    requires
        old(ledger).wf(),
    ensures
        final(ledger).wf(),
        committed(
            old(ledger)@,
            final(ledger)@,
            result,
            initialize_election_outcome(
                old(ledger)@,
                *ctx,
                derived_address(election_seeds(ctx.authority), old(ledger)@.program_id),
                now,
                start_ts,
                end_ts,
                vote_fee_lamports,
            ),
        ),
{
    let program_id = ledger.program_id();
    let found = election_address(&program_id, &ctx.authority);
    initialize_election_at(ledger, ctx, found, now, start_ts, end_ts, vote_fee_lamports)
}

/// Adds a party, given what the search for its address found.
pub fn add_party_at(
    ledger: &mut Ledger,
    ctx: &AddParty,
    found: Option<(Address, u8)>,
    now: i64,
    party_id: u8,
    name: String,
) -> (result: Result<(), TxError>)
    requires
        old(ledger).wf(),
    ensures
        final(ledger).wf(),
        committed(
            old(ledger)@,
            final(ledger)@,
            result,
            add_party_outcome(old(ledger)@, *ctx, found, now, party_id, name@),
        ),
{
    match ledger.election(&ctx.election) {
        None => {
            return Err(TxError::RecordNotFound);
        },
        Some(election) => {
            match check_party(election, now, name.as_str()) {
                Ok(()) => {},
                Err(error) => {
                    return Err(TxError::Vote(error));
                },
            }
            if !election.authority.same_as(&ctx.authority) {
                return Err(TxError::Unauthorized);
            }
        },
    }
    let bump = match claim(ledger, &ctx.party, found) {
        Ok(bump) => bump,
        Err(error) => {
            return Err(error);
        },
    };
    ledger.put_party(ctx.party, Party { election: ctx.election, party_id, name, bump });
    Ok(())
}

/// Adds party `party_id`, named `name`, to the election `ctx.election`.
/// Only the organizer may do so, and only before voting opens.
pub fn add_party(ledger: &mut Ledger, ctx: &AddParty, now: i64, party_id: u8, name: String) -> (result: Result<
    (),
    TxError,
>)
    requires
        old(ledger).wf(),
    ensures
        final(ledger).wf(),
        committed(
            old(ledger)@,
            final(ledger)@,
            result,
            add_party_outcome(
                old(ledger)@,
                *ctx,
                derived_address(party_seeds(ctx.election, party_id), old(ledger)@.program_id),
                now,
                party_id,
                name@,
            ),
        ),
{
    let program_id = ledger.program_id();
    let found = party_address(&program_id, &ctx.election, party_id);
    add_party_at(ledger, ctx, found, now, party_id, name)
}

/// Creates the tally of a state, given what the search for its address found.
pub fn init_state_votes_at(
    ledger: &mut Ledger,
    ctx: &InitStateVotes,
    found: Option<(Address, u8)>,
    now: i64,
    state_id: u8,
) -> (result: Result<(), TxError>)
    requires
        old(ledger).wf(),
    ensures
        final(ledger).wf(),
        committed(
            old(ledger)@,
            final(ledger)@,
            result,
            init_state_votes_outcome(old(ledger)@, *ctx, found, now, state_id),
        ),
{
    match ledger.election(&ctx.election) {
        None => {
            return Err(TxError::RecordNotFound);
        },
        Some(election) => {
            match check_state_votes(election, now, state_id) {
                Ok(()) => {},
                Err(error) => {
                    return Err(TxError::Vote(error));
                },
            }
            if !election.authority.same_as(&ctx.authority) {
                return Err(TxError::Unauthorized);
            }
        },
    }
    let bump = match claim(ledger, &ctx.state_votes, found) {
        Ok(bump) => bump,
        Err(error) => {
            return Err(error);
        },
    };
    let created = match ledger.election(&ctx.election) {
        Some(election) => StateVotes::create(election, ctx.election, now, state_id, bump),
        None => {
            return Err(TxError::RecordNotFound);
        },
    };
    match created {
        Ok(tally) => {
            ledger.put_state_votes(ctx.state_votes, tally);
            Ok(())
        },
        Err(error) => Err(TxError::Vote(error)),
    }
}

/// Creates the tally of state `state_id` of the election `ctx.election`,
/// with every counter at zero. Only the organizer may do so, and only
/// before voting opens.
pub fn init_state_votes(ledger: &mut Ledger, ctx: &InitStateVotes, now: i64, state_id: u8) -> (result: Result<
    (),
    TxError,
>)
    requires
        old(ledger).wf(),
    ensures
        final(ledger).wf(),
        committed(
            old(ledger)@,
            final(ledger)@,
            result,
            init_state_votes_outcome(
                old(ledger)@,
                *ctx,
                derived_address(state_votes_seeds(ctx.election, state_id), old(ledger)@.program_id),
                now,
                state_id,
            ),
        ),
{
    let program_id = ledger.program_id();
    let found = state_votes_address(&program_id, &ctx.election, state_id);
    init_state_votes_at(ledger, ctx, found, now, state_id)
}

/// Casts a vote, given what the search for the vote record's address found.
pub fn cast_vote_at(
    ledger: &mut Ledger,
    ctx: &CasteVote,
    found: Option<(Address, u8)>,
    now: i64,
    state_id: u8,
    party_id: u8,
) -> (result: Result<(), TxError>)
    requires
        old(ledger).wf(),
    ensures
        final(ledger).wf(),
        committed(
            old(ledger)@,
            final(ledger)@,
            result,
            cast_vote_outcome(old(ledger)@, *ctx, found, now, state_id, party_id),
        ),
{
    let payment = match (ledger.election(&ctx.election), ledger.state_votes(&ctx.state_votes)) {
        (Some(election), Some(tally)) => {
            if !tally.election.same_as(&ctx.election) {
                return Err(TxError::AddressMismatch);
            }
            match check_ballot(election, tally, now, state_id, party_id) {
                Ok(()) => {},
                Err(error) => {
                    return Err(TxError::Vote(error));
                },
            }
            let payment = transfer_instruction(&ctx.voter, &election.authority, election.vote_fee_lamports);
            match ledger.check_transfer(&ctx.voter, &election.authority, election.vote_fee_lamports) {
                Ok(()) => {},
                Err(error) => {
                    return Err(error);
                },
            }
            match check_count(election, tally, party_id) {
                Ok(()) => {},
                Err(error) => {
                    return Err(TxError::Vote(error));
                },
            }
            payment
        },
        _ => {
            return Err(TxError::RecordNotFound);
        },
    };
    let bump = match claim(ledger, &ctx.voter_record, found) {
        Ok(bump) => bump,
        Err(error) => {
            return Err(error);
        },
    };
    match ledger.invoke(&payment) {
        Ok(()) => {},
        Err(error) => {
            return Err(error);
        },
    }
    ledger.count_vote(&ctx.election, &ctx.state_votes, party_id);
    ledger.put_vote_record(ctx.voter_record, VoteRecord::create(ctx.election, state_id, ctx.voter, now, bump));
    Ok(())
}

/// Casts `ctx.voter`'s vote for party `party_id` in state `state_id`: the
/// fee moves from the voter to the organizer, the party's counter, the
/// state's total and the election's total each grow by one, and a record of
/// the vote is kept at the address derived from election, state and voter.
pub fn cast_vote(ledger: &mut Ledger, ctx: &CasteVote, now: i64, state_id: u8, party_id: u8) -> (result: Result<
    (),
    TxError,
>)
    requires
        old(ledger).wf(),
    ensures
        final(ledger).wf(),
        committed(
            old(ledger)@,
            final(ledger)@,
            result,
            cast_vote_outcome(
                old(ledger)@,
                *ctx,
                derived_address(vote_record_seeds(ctx.election, state_id, ctx.voter), old(ledger)@.program_id),
                now,
                state_id,
                party_id,
            ),
        ),
{
    let program_id = ledger.program_id();
    let found = vote_record_address(&program_id, &ctx.election, state_id, &ctx.voter);
    cast_vote_at(ledger, ctx, found, now, state_id, party_id)
}

} // verus!
