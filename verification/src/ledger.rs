//! The ledger: where the records of all elections are kept by address,
//! together with the balance of every account.

use crate::address::Address;
use crate::error::TxError;
use crate::records::{
    count_ballot, count_error, counted_election, counted_state_votes, new_state_votes, ElectionConfig,
    ElectionConfigView, Party, PartyView, StateVotes, StateVotesView, VoteRecord,
};
use crate::system::Instruction;
use crate::table::{distinct, find, holds, lemma_push, lemma_slot, lemma_update, table_view, Entry};
use vstd::prelude::*;

verus! {

/// Everything the ledger keeps, as maps from address to record.
pub struct LedgerView {
    /// The program under which addresses are derived.
    pub program_id: Address,
    pub elections: Map<Address, ElectionConfigView>,
    pub parties: Map<Address, PartyView>,
    pub state_votes: Map<Address, StateVotesView>,
    pub vote_records: Map<Address, VoteRecord>,
    /// Lamports per account; an account that is not listed holds none.
    pub balances: Map<Address, u64>,
}

/// The lamports that `address` holds in `balances`.
pub open spec fn balance_of(balances: Map<Address, u64>, address: Address) -> u64 {
    if balances.contains_key(address) {
        balances[address]
    } else {
        0
    }
}

/// Why `amount` lamports cannot move from `from` to `to`, if they cannot.
pub open spec fn transfer_error(balances: Map<Address, u64>, from: Address, to: Address, amount: u64) -> Option<
    TxError,
> {
    if balance_of(balances, from) < amount {
        Some(TxError::InsufficientFunds)
    } else if from != to && balance_of(balances, to) + amount > u64::MAX {
        Some(TxError::BalanceOverflow)
    } else {
        None
    }
}

/// Why the ledger cannot carry out `instruction`, if it cannot: the ledger
/// carries out transfers and nothing else.
pub open spec fn invoke_error(balances: Map<Address, u64>, instruction: Instruction) -> Option<TxError> {
    match instruction.transfer() {
        None => Some(TxError::UnsupportedInstruction),
        Some(transfer) => transfer_error(balances, transfer.from, transfer.to, transfer.lamports),
    }
}

/// The balances after `amount` lamports have moved from `from` to `to`.
pub open spec fn transferred(balances: Map<Address, u64>, from: Address, to: Address, amount: u64) -> Map<
    Address,
    u64,
> {
    let debited = balances.insert(from, (balance_of(balances, from) - amount) as u64);
    debited.insert(to, (balance_of(debited, to) + amount) as u64)
}

/// The votes that the tallies in `tallies` hold for `election`, summed over
/// all of its states.
pub open spec fn tally_sum(tallies: Seq<StateVotesView>, election: Address) -> int
    decreases tallies.len(),
{
    if tallies.len() == 0 {
        0
    } else {
        tally_sum(tallies.drop_last(), election) + tally_share(tallies.last(), election)
    }
}

/// What one tally adds to the votes of `election`.
pub open spec fn tally_share(tally: StateVotesView, election: Address) -> int {
    if tally.election == election {
        tally.total_votes as int
    } else {
        0
    }
}

/// The votes that a tally holds, summed over its party counters.
pub open spec fn counter_sum(votes: Seq<u64>) -> int
    decreases votes.len(),
{
    if votes.len() == 0 {
        0
    } else {
        counter_sum(votes.drop_last()) + votes.last()
    }
}

impl LedgerView {
    /// A record of some kind is kept at `address`.
    pub open spec fn occupied(self, address: Address) -> bool {
        ||| self.elections.contains_key(address)
        ||| self.parties.contains_key(address)
        ||| self.state_votes.contains_key(address)
        ||| self.vote_records.contains_key(address)
    }

    /// `tally` is one of the state tallies that the ledger keeps.
    pub open spec fn keeps_tally(self, tally: StateVotesView) -> bool {
        exists|address: Address| #[trigger]
            self.state_votes.contains_key(address) && self.state_votes[address] == tally
    }

    /// The lamports that `address` holds.
    pub open spec fn balance(self, address: Address) -> u64 {
        balance_of(self.balances, address)
    }
}

proof fn lemma_sum_push(tallies: Seq<StateVotesView>, tally: StateVotesView, election: Address)
    ensures
        tally_sum(tallies.push(tally), election) == tally_sum(tallies, election) + tally_share(tally, election),
{
    assert(tallies.push(tally).drop_last() =~= tallies);
}

proof fn lemma_sum_update(tallies: Seq<StateVotesView>, i: int, tally: StateVotesView, election: Address)
    requires
        0 <= i < tallies.len(),
    ensures
        tally_sum(tallies.update(i, tally), election) == tally_sum(tallies, election) - tally_share(
            tallies[i],
            election,
        ) + tally_share(tally, election),
    decreases tallies.len(),
{
    let changed = tallies.update(i, tally);
    if i == tallies.len() - 1 {
        assert(changed.drop_last() =~= tallies.drop_last());
    } else {
        assert(changed.drop_last() =~= tallies.drop_last().update(i, tally));
        lemma_sum_update(tallies.drop_last(), i, tally, election);
    }
}

proof fn lemma_sum_none(tallies: Seq<StateVotesView>, election: Address)
    requires
        forall|i: int| 0 <= i < tallies.len() ==> tallies[i].election != election,
    ensures
        tally_sum(tallies, election) == 0,
    decreases tallies.len(),
{
    if tallies.len() > 0 {
        lemma_sum_none(tallies.drop_last(), election);
    }
}

proof fn lemma_counters_zero(votes: Seq<u64>)
    requires
        forall|i: int| 0 <= i < votes.len() ==> votes[i] == 0,
    ensures
        counter_sum(votes) == 0,
    decreases votes.len(),
{
    if votes.len() > 0 {
        lemma_counters_zero(votes.drop_last());
    }
}

proof fn lemma_counters_update(votes: Seq<u64>, i: int, value: u64)
    requires
        0 <= i < votes.len(),
    ensures
        counter_sum(votes.update(i, value)) == counter_sum(votes) - votes[i] + value,
    decreases votes.len(),
{
    let changed = votes.update(i, value);
    if i == votes.len() - 1 {
        assert(changed.drop_last() =~= votes.drop_last());
    } else {
        assert(changed.drop_last() =~= votes.drop_last().update(i, value));
        lemma_counters_update(votes.drop_last(), i, value);
    }
}

proof fn lemma_sum_bound(tallies: Seq<StateVotesView>, i: int, election: Address)
    requires
        0 <= i < tallies.len(),
    ensures
        tally_share(tallies[i], election) <= tally_sum(tallies, election),
        0 <= tally_sum(tallies, election),
    decreases tallies.len(),
{
    lemma_sum_nonnegative(tallies.drop_last(), election);
    if i < tallies.len() - 1 {
        lemma_sum_bound(tallies.drop_last(), i, election);
    }
}

proof fn lemma_sum_nonnegative(tallies: Seq<StateVotesView>, election: Address)
    ensures
        0 <= tally_sum(tallies, election),
    decreases tallies.len(),
{
    if tallies.len() > 0 {
        lemma_sum_nonnegative(tallies.drop_last(), election);
    }
}

/// The record store of the election program, with the balance of every
/// account. A transaction either changes it as its contract says or leaves
/// it as it was.
pub struct Ledger {
    program_id: Address,
    elections: Vec<Entry<ElectionConfig>>,
    parties: Vec<Entry<Party>>,
    state_votes: Vec<Entry<StateVotes>>,
    vote_records: Vec<Entry<VoteRecord>>,
    balances: Vec<Entry<u64>>,
}

impl View for Ledger {
    type V = LedgerView;

    closed spec fn view(&self) -> LedgerView {
        LedgerView {
            program_id: self.program_id,
            elections: table_view(self.elections@),
            parties: table_view(self.parties@),
            state_votes: table_view(self.state_votes@),
            vote_records: table_view(self.vote_records@),
            balances: table_view(self.balances@),
        }
    }
}

impl Ledger {
    /// The state tallies in the order in which they were created.
    pub closed spec fn tallies(&self) -> Seq<StateVotesView> {
        Seq::new(self.state_votes@.len(), |i: int| self.state_votes@[i].value@)
    }

    /// The ledger is well formed: no address holds two records of a kind,
    /// every tally belongs to an election that the ledger keeps, and the
    /// total of every election is the sum of the totals of its tallies.
    pub closed spec fn wf(&self) -> bool {
        &&& distinct(self.elections@)
        &&& distinct(self.parties@)
        &&& distinct(self.state_votes@)
        &&& distinct(self.vote_records@)
        &&& distinct(self.balances@)
        &&& forall|j: int|
            0 <= j < self.state_votes@.len() ==> holds(self.elections@, #[trigger] self.state_votes@[j].value.election)
        &&& forall|j: int|
            0 <= j < self.state_votes@.len() ==> counter_sum((#[trigger] self.state_votes@[j]).value.votes@)
                == self.state_votes@[j].value.total_votes
        &&& forall|i: int|
            0 <= i < self.elections@.len() ==> (#[trigger] self.elections@[i]).value.total_votes == tally_sum(
                self.tallies(),
                self.elections@[i].address,
            )
    }

    /// An empty ledger for the program `program_id`.
    pub fn new(program_id: Address) -> (ledger: Ledger)
        ensures
            ledger.wf(),
            ledger@.program_id == program_id,
            ledger@.elections == Map::<Address, ElectionConfigView>::empty(),
            ledger@.parties == Map::<Address, PartyView>::empty(),
            ledger@.state_votes == Map::<Address, StateVotesView>::empty(),
            ledger@.vote_records == Map::<Address, VoteRecord>::empty(),
            ledger@.balances == Map::<Address, u64>::empty(),
    {
        let ledger = Ledger {
            program_id,
            elections: Vec::new(),
            parties: Vec::new(),
            state_votes: Vec::new(),
            vote_records: Vec::new(),
            balances: Vec::new(),
        };
        assert(ledger@.elections =~= Map::<Address, ElectionConfigView>::empty());
        assert(ledger@.parties =~= Map::<Address, PartyView>::empty());
        assert(ledger@.state_votes =~= Map::<Address, StateVotesView>::empty());
        assert(ledger@.vote_records =~= Map::<Address, VoteRecord>::empty());
        assert(ledger@.balances =~= Map::<Address, u64>::empty());
        ledger
    }

    /// The program under which the ledger derives addresses.
    pub fn program_id(&self) -> (id: Address)
        ensures
            id == self@.program_id,
    {
        self.program_id
    }

    /// The election kept at `address`, if there is one.
    pub fn election(&self, address: &Address) -> (record: Option<&ElectionConfig>)
        requires
            self.wf(),
        ensures
            match record {
                Some(election) => self@.elections.contains_key(*address) && election@ == self@.elections[*address],
                None => !self@.elections.contains_key(*address),
            },
    {
        match find(&self.elections, address) {
            Some(i) => Some(&self.elections[i].value),
            None => None,
        }
    }

    /// The party kept at `address`, if there is one.
    pub fn party(&self, address: &Address) -> (record: Option<&Party>)
        requires
            self.wf(),
        ensures
            match record {
                Some(party) => self@.parties.contains_key(*address) && party@ == self@.parties[*address],
                None => !self@.parties.contains_key(*address),
            },
    {
        match find(&self.parties, address) {
            Some(i) => Some(&self.parties[i].value),
            None => None,
        }
    }

    /// The state tally kept at `address`, if there is one.
    pub fn state_votes(&self, address: &Address) -> (record: Option<&StateVotes>)
        requires
            self.wf(),
        ensures
            match record {
                Some(tally) => self@.state_votes.contains_key(*address) && tally@ == self@.state_votes[*address],
                None => !self@.state_votes.contains_key(*address),
            },
    {
        match find(&self.state_votes, address) {
            Some(i) => Some(&self.state_votes[i].value),
            None => None,
        }
    }

    /// The vote record kept at `address`, if there is one.
    pub fn vote_record(&self, address: &Address) -> (record: Option<&VoteRecord>)
        requires
            self.wf(),
        ensures
            match record {
                Some(vote) => self@.vote_records.contains_key(*address) && *vote == self@.vote_records[*address],
                None => !self@.vote_records.contains_key(*address),
            },
    {
        match find(&self.vote_records, address) {
            Some(i) => Some(&self.vote_records[i].value),
            None => None,
        }
    }

    /// Whether a record of some kind is kept at `address`.
    pub fn is_occupied(&self, address: &Address) -> (occupied: bool)
        requires
            self.wf(),
        ensures
            occupied == self@.occupied(*address),
    {
        find(&self.elections, address).is_some() || find(&self.parties, address).is_some() || find(
            &self.state_votes,
            address,
        ).is_some() || find(&self.vote_records, address).is_some()
    }

    /// The lamports that `address` holds.
    pub fn balance(&self, address: &Address) -> (lamports: u64)
        requires
            self.wf(),
        ensures
            lamports == self@.balance(*address),
    {
        match find(&self.balances, address) {
            Some(i) => self.balances[i].value,
            None => 0,
        }
    }

    fn set_balance(&mut self, address: &Address, lamports: u64)
        requires
            old(self).wf(),
        ensures
            final(self).wf(),
            final(self)@ == (LedgerView { balances: old(self)@.balances.insert(*address, lamports), ..old(self)@ }),
            final(self).tallies() == old(self).tallies(),
    {
        match find(&self.balances, address) {
            Some(i) => {
                proof {
                    lemma_update(old(self).balances@, i as int, Entry { address: *address, value: lamports });
                }
                self.balances[i].value = lamports;
                assert(self.balances@ =~= old(self).balances@.update(
                    i as int,
                    Entry { address: *address, value: lamports },
                ));
            },
            None => {
                proof {
                    lemma_push(old(self).balances@, Entry { address: *address, value: lamports });
                }
                self.balances.push(Entry { address: *address, value: lamports });
            },
        }
    }

    /// Adds `lamports` to what `to` holds.
    pub fn deposit(&mut self, to: &Address, lamports: u64) -> (deposited: Result<(), TxError>)
        requires
            old(self).wf(),
        ensures
            final(self).wf(),
            match deposited {
                Ok(()) => old(self)@.balance(*to) + lamports <= u64::MAX && final(self)@ == (LedgerView {
                    balances: old(self)@.balances.insert(*to, (old(self)@.balance(*to) + lamports) as u64),
                    ..old(self)@
                }),
                Err(error) => error == TxError::BalanceOverflow && old(self)@.balance(*to) + lamports > u64::MAX
                    && final(self)@ == old(self)@,
            },
    {
        let held = self.balance(to);
        if lamports > u64::MAX - held {
            return Err(TxError::BalanceOverflow);
        }
        self.set_balance(to, held + lamports);
        Ok(())
    }

    /// Decides whether `amount` lamports can move from `from` to `to`.
    pub fn check_transfer(&self, from: &Address, to: &Address, amount: u64) -> (checked: Result<(), TxError>)
        requires
            self.wf(),
        ensures
            match checked {
                Ok(()) => transfer_error(self@.balances, *from, *to, amount) is None,
                Err(error) => transfer_error(self@.balances, *from, *to, amount) == Some(error),
            },
    {
        if self.balance(from) < amount {
            return Err(TxError::InsufficientFunds);
        }
        if !from.same_as(to) && amount > u64::MAX - self.balance(to) {
            return Err(TxError::BalanceOverflow);
        }
        Ok(())
    }

    /// Carries out `instruction`, which must be a transfer, or changes nothing.
    pub fn invoke(&mut self, instruction: &Instruction) -> (done: Result<(), TxError>)
        requires
            old(self).wf(),
        ensures
            final(self).wf(),
            final(self).tallies() == old(self).tallies(),
            match done {
                Ok(()) => {
                    &&& invoke_error(old(self)@.balances, *instruction) is None
                    &&& instruction.transfer() matches Some(transfer)
                    &&& final(self)@ == (LedgerView {
                        balances: transferred(old(self)@.balances, transfer.from, transfer.to, transfer.lamports),
                        ..old(self)@
                    })
                },
                Err(error) => invoke_error(old(self)@.balances, *instruction) == Some(error) && final(self)@ == old(
                    self,
                )@,
            },
    {
        match instruction.as_transfer() {
            None => Err(TxError::UnsupportedInstruction),
            Some(transfer) => self.transfer(&transfer.from, &transfer.to, transfer.lamports),
        }
    }

    /// Moves `amount` lamports from `from` to `to`, or changes nothing.
    pub fn transfer(&mut self, from: &Address, to: &Address, amount: u64) -> (moved: Result<(), TxError>)
        requires
            old(self).wf(),
        ensures
            final(self).wf(),
            final(self).tallies() == old(self).tallies(),
            match moved {
                Ok(()) => transfer_error(old(self)@.balances, *from, *to, amount) is None && final(self)@ == (
                LedgerView { balances: transferred(old(self)@.balances, *from, *to, amount), ..old(self)@ }),
                Err(error) => transfer_error(old(self)@.balances, *from, *to, amount) == Some(error) && final(self)@
                    == old(self)@,
            },
    {
        match self.check_transfer(from, to, amount) {
            Ok(()) => {},
            Err(error) => {
                return Err(error);
            },
        }
        let paid = self.balance(from);
        self.set_balance(from, paid - amount);
        let held = self.balance(to);
        self.set_balance(to, held + amount);
        Ok(())
    }

    /// Keeps a new election at the free address `address`.
    pub(crate) fn put_election(&mut self, address: Address, election: ElectionConfig)
        requires
            old(self).wf(),
            !old(self)@.occupied(address),
            election.total_votes == 0,
        ensures
            final(self).wf(),
            final(self)@ == (LedgerView { elections: old(self)@.elections.insert(address, election@), ..old(self)@ }),
    {
        proof {
            let entry = Entry { address, value: election };
            lemma_push(self.elections@, entry);
            assert forall|j: int| 0 <= j < self.tallies().len() implies self.tallies()[j].election != address by {
                assert(holds(self.elections@, self.state_votes@[j].value.election));
            }
            lemma_sum_none(self.tallies(), address);
            assert forall|j: int| 0 <= j < self.state_votes@.len() implies holds(
                self.elections@.push(entry),
                #[trigger] self.state_votes@[j].value.election,
            ) by {
                let at = self.state_votes@[j].value.election;
                assert(holds(self.elections@, at));
                let i = crate::table::slot(self.elections@, at);
                assert(self.elections@.push(entry)[i].address == at);
            }
        }
        self.elections.push(Entry { address, value: election });
    }

    /// Keeps a new party at the free address `address`.
    pub(crate) fn put_party(&mut self, address: Address, party: Party)
        requires
            old(self).wf(),
            !old(self)@.occupied(address),
        ensures
            final(self).wf(),
            final(self)@ == (LedgerView { parties: old(self)@.parties.insert(address, party@), ..old(self)@ }),
    {
        proof {
            lemma_push(self.parties@, Entry { address, value: party });
        }
        self.parties.push(Entry { address, value: party });
    }

    /// Keeps the empty tally of a state at the free address `address`.
    pub(crate) fn put_state_votes(&mut self, address: Address, tally: StateVotes)
        requires
            old(self).wf(),
            !old(self)@.occupied(address),
            old(self)@.elections.contains_key(tally.election),
            tally@ == new_state_votes(tally.election, tally.state_id, tally.bump),
        ensures
            final(self).wf(),
            final(self)@ == (LedgerView {
                state_votes: old(self)@.state_votes.insert(address, tally@),
                ..old(self)@
            }),
    {
        proof {
            lemma_push(self.state_votes@, Entry { address, value: tally });
            lemma_counters_zero(tally@.votes);
        }
        let ghost before = self.tallies();
        self.state_votes.push(Entry { address, value: tally });
        proof {
            assert(self.tallies() =~= before.push(tally@));
            assert forall|i: int| 0 <= i < self.elections@.len() implies (#[trigger] self.elections@[i]).value.total_votes
                == tally_sum(self.tallies(), self.elections@[i].address) by {
                lemma_sum_push(before, tally@, self.elections@[i].address);
            }
        }
    }

    /// Keeps a vote record at the free address `address`.
    pub(crate) fn put_vote_record(&mut self, address: Address, record: VoteRecord)
        requires
            old(self).wf(),
            !old(self)@.occupied(address),
        ensures
            final(self).wf(),
            final(self)@ == (LedgerView {
                vote_records: old(self)@.vote_records.insert(address, record),
                ..old(self)@
            }),
    {
        proof {
            lemma_push(self.vote_records@, Entry { address, value: record });
        }
        self.vote_records.push(Entry { address, value: record });
    }

    /// Counts one vote for party `party_id` in the tally kept at
    /// `state_votes`, which belongs to the election kept at `election`.
    pub(crate) fn count_vote(&mut self, election: &Address, state_votes: &Address, party_id: u8)
        requires
            old(self).wf(),
            old(self)@.elections.contains_key(*election),
            old(self)@.state_votes.contains_key(*state_votes),
            old(self)@.state_votes[*state_votes].election == *election,
            count_error(old(self)@.elections[*election], old(self)@.state_votes[*state_votes], party_id) is None,
        ensures
            final(self).wf(),
            final(self)@ == (LedgerView {
                elections: old(self)@.elections.insert(*election, counted_election(old(self)@.elections[*election])),
                state_votes: old(self)@.state_votes.insert(
                    *state_votes,
                    counted_state_votes(old(self)@.state_votes[*state_votes], party_id),
                ),
                ..old(self)@
            }),
    {
        let at = find(&self.elections, election);
        let tally_at = find(&self.state_votes, state_votes);
        let (i, j) = match (at, tally_at) {
            (Some(i), Some(j)) => (i, j),
            _ => { return ; },
        };
        let ghost before = self.tallies();
        let _counted = count_ballot(&mut self.elections[i].value, &mut self.state_votes[j].value, party_id);
        proof {
            let new_election = self.elections@[i as int];
            let new_tally = self.state_votes@[j as int];
            assert(self.elections@ =~= old(self).elections@.update(i as int, new_election));
            assert(self.state_votes@ =~= old(self).state_votes@.update(j as int, new_tally));
            lemma_update(old(self).elections@, i as int, new_election);
            lemma_update(old(self).state_votes@, j as int, new_tally);
            assert(self.tallies() =~= before.update(j as int, new_tally.value@));
            lemma_counters_update(
                old(self).state_votes@[j as int].value.votes@,
                party_id as int,
                new_tally.value.votes@[party_id as int],
            );
            assert forall|k: int| 0 <= k < self.elections@.len() implies (#[trigger] self.elections@[k]).value.total_votes
                == tally_sum(self.tallies(), self.elections@[k].address) by {
                lemma_sum_update(before, j as int, new_tally.value@, self.elections@[k].address);
                assert(old(self).elections@[k].value.total_votes == tally_sum(before, old(self).elections@[k].address));
                if k != i {
                    assert(old(self).elections@[k].address != old(self).elections@[i as int].address);
                }
            }
            assert forall|k: int| 0 <= k < self.state_votes@.len() implies holds(
                self.elections@,
                #[trigger] self.state_votes@[k].value.election,
            ) by {
                let owner = self.state_votes@[k].value.election;
                assert(old(self).state_votes@[k].value.election == owner);
                assert(holds(old(self).elections@, owner));
                let s = crate::table::slot(old(self).elections@, owner);
                assert(self.elections@[s].address == owner);
            }
        }
    }
}

/// In a well-formed ledger the total of every election is the sum of the
/// totals of all its state tallies.
pub proof fn lemma_election_total_is_tally_sum(ledger: Ledger, election: Address)
    requires
        ledger.wf(),
        ledger@.elections.contains_key(election),
    ensures
        ledger@.elections[election].total_votes == tally_sum(ledger.tallies(), election),
{
    let i = crate::table::slot(ledger.elections@, election);
    lemma_slot(ledger.elections@, i);
}

/// In a well-formed ledger every state tally belongs to an election that the
/// ledger keeps, holds as many votes as its party counters add up to, and
/// holds no more votes than that election.
pub proof fn lemma_state_total_within_election_total(ledger: Ledger, address: Address)
    requires
        ledger.wf(),
        ledger@.state_votes.contains_key(address),
    ensures
        ledger@.elections.contains_key(ledger@.state_votes[address].election),
        ledger@.state_votes[address].total_votes == counter_sum(ledger@.state_votes[address].votes),
        ledger@.state_votes[address].total_votes <= ledger@.elections[ledger@.state_votes[address].election].total_votes,
{
    let j = crate::table::slot(ledger.state_votes@, address);
    lemma_slot(ledger.state_votes@, j);
    let owner = ledger.state_votes@[j].value.election;
    assert(holds(ledger.elections@, owner));
    let i = crate::table::slot(ledger.elections@, owner);
    lemma_slot(ledger.elections@, i);
    lemma_sum_bound(ledger.tallies(), j, owner);
}

/// Every state tally that a ledger keeps has ten party counters.
pub proof fn lemma_tallies_have_ten_counters(ledger: Ledger, address: Address)
    requires
        ledger.wf(),
        ledger@.state_votes.contains_key(address),
    ensures
        ledger@.state_votes[address].votes.len() == 10,
{
    let i = crate::table::slot(ledger.state_votes@, address);
    lemma_slot(ledger.state_votes@, i);
}

/// The tallies of a well-formed ledger are exactly the records that it keeps
/// as state tallies, each listed once.
pub proof fn lemma_tallies_are_the_state_votes(ledger: Ledger)
    requires
        ledger.wf(),
    ensures
        forall|address: Address| #[trigger]
            ledger@.state_votes.contains_key(address) ==> exists|i: int|
                0 <= i < ledger.tallies().len() && ledger.tallies()[i] == ledger@.state_votes[address],
        forall|i: int| 0 <= i < ledger.tallies().len() ==> ledger@.keeps_tally(#[trigger] ledger.tallies()[i]),
        ledger.tallies().len() == ledger@.state_votes.dom().len(),
{
    assert forall|i: int| 0 <= i < ledger.tallies().len() implies ledger@.keeps_tally(
        #[trigger] ledger.tallies()[i],
    ) by {
        lemma_slot(ledger.state_votes@, i);
        let address = ledger.state_votes@[i].address;
        assert(ledger@.state_votes.contains_key(address) && ledger@.state_votes[address] == ledger.tallies()[i]);
    }
    assert forall|address: Address| #[trigger] ledger@.state_votes.contains_key(address) implies exists|i: int|
        0 <= i < ledger.tallies().len() && ledger.tallies()[i] == ledger@.state_votes[address] by {
        let i = crate::table::slot(ledger.state_votes@, address);
        lemma_slot(ledger.state_votes@, i);
        assert(ledger.tallies()[i] == ledger@.state_votes[address]);
    }
    crate::table::lemma_domain_size(ledger.state_votes@);
}

} // verus!
