//! Identity derivation: every record of an election lives at an address that
//! is computed from a fixed tag and the record's logical key.

use anchor_lang::prelude::Pubkey;
use vstd::prelude::*;

verus! {

/// A 32-byte identity: a signer, a program, or the place where a record is kept.
#[derive(Clone, Copy, Debug, PartialEq, Eq)]
pub struct Address {
    pub bytes: [u8; 32],
}

/// Tag of an election's address: the ASCII bytes of `election`.
pub const ELECTION_TAG: [u8; 8] = [101, 108, 101, 99, 116, 105, 111, 110];

/// Tag of a party's address: the ASCII bytes of `party`.
pub const PARTY_TAG: [u8; 5] = [112, 97, 114, 116, 121];

/// Tag of a state tally's address: the ASCII bytes of `state_votes`.
pub const STATE_VOTES_TAG: [u8; 11] = [115, 116, 97, 116, 101, 95, 118, 111, 116, 101, 115];

/// Tag of a vote record's address: the ASCII bytes of `vote_record`.
pub const VOTE_RECORD_TAG: [u8; 11] = [118, 111, 116, 101, 95, 114, 101, 99, 111, 114, 100];

/// The address bytes and bump seed that the program-address search yields for
/// `seeds` under the program `program_id`, or `None` where it finds none.
pub uninterp spec fn program_address(seeds: Seq<Seq<u8>>, program_id: Seq<u8>) -> Option<(Seq<u8>, u8)>;

impl Address {
    /// The address whose bytes are `bytes`.
    pub open spec fn of_bytes(bytes: Seq<u8>) -> Address {
        choose|a: Address| a.bytes@ == bytes
    }

    /// Two addresses are the same exactly when all 32 bytes agree.
    pub fn same_as(&self, other: &Address) -> (same: bool)
        ensures
            same == (*self == *other),
    {
        let mut i: usize = 0;
        while i < 32
            invariant
                i <= 32,
                forall|j: int| 0 <= j < i ==> self.bytes[j] == other.bytes[j],
            decreases 32 - i,
        {
            if self.bytes[i] != other.bytes[i] {
                return false;
            }
            i = i + 1;
        }
        assert(self.bytes =~= other.bytes);
        true
    }
}

/// Seeds of the election that `authority` organizes.
pub open spec fn election_seeds(authority: Address) -> Seq<Seq<u8>> {
    seq![ELECTION_TAG@, authority.bytes@]
}

/// Seeds of party `party_id` of `election`.
pub open spec fn party_seeds(election: Address, party_id: u8) -> Seq<Seq<u8>> {
    seq![PARTY_TAG@, election.bytes@, seq![party_id]]
}

/// Seeds of the tally of state `state_id` of `election`.
pub open spec fn state_votes_seeds(election: Address, state_id: u8) -> Seq<Seq<u8>> {
    seq![STATE_VOTES_TAG@, election.bytes@, seq![state_id]]
}

/// Seeds of the record of `voter`'s vote in state `state_id` of `election`.
pub open spec fn vote_record_seeds(election: Address, state_id: u8, voter: Address) -> Seq<Seq<u8>> {
    seq![VOTE_RECORD_TAG@, election.bytes@, seq![state_id], voter.bytes@]
}

/// The derived address and bump for `seeds` under `program_id`, as an [`Address`].
pub open spec fn derived_address(seeds: Seq<Seq<u8>>, program_id: Address) -> Option<(Address, u8)> {
    match program_address(seeds, program_id.bytes@) {
        Some((bytes, bump)) => Some((Address::of_bytes(bytes), bump)),
        None => None,
    }
}

/// What a search result says in plain bytes.
pub open spec fn found_bytes(found: Option<(Address, u8)>) -> Option<(Seq<u8>, u8)> {
    match found {
        Some((address, bump)) => Some((address.bytes@, bump)),
        None => None,
    }
}

/// Calls `Pubkey::try_find_program_address`, which `anchor_lang` has from
/// `solana_program`. Not proved: that the address and bump it returns, or its
/// `None`, depend on the seeds and the program id alone, which is what giving
/// the result the name [`program_address`] claims.
#[verifier::external_body]
fn try_find_program_address(seeds: &Vec<Vec<u8>>, program_id: &Address) -> (found: Option<(Address, u8)>)
    ensures
        found_bytes(found) == program_address(seeds.deep_view(), program_id.bytes@),
{
    let parts: Vec<&[u8]> = seeds.iter().map(|seed| seed.as_slice()).collect();
    match Pubkey::try_find_program_address(&parts, &Pubkey::new_from_array(program_id.bytes)) {
        Some((key, bump)) => Some((Address { bytes: key.to_bytes() }, bump)),
        None => None,
    }
}

/// Searches the address for `seeds` under `program_id`.
pub fn find_address(seeds: &Vec<Vec<u8>>, program_id: &Address) -> (found: Option<(Address, u8)>)
    ensures
        found == derived_address(seeds.deep_view(), *program_id),
{
    let found = try_find_program_address(seeds, program_id);
    proof {
        if let Some((address, bump)) = found {
            let chosen = Address::of_bytes(address.bytes@);
            assert(chosen.bytes@ == address.bytes@);
            assert(chosen.bytes =~= address.bytes);
        }
    }
    found
}

fn copy_bytes(bytes: &[u8]) -> (copy: Vec<u8>)
    ensures
        copy@ == bytes@,
        copy.deep_view() == bytes@,
{
    let mut copy: Vec<u8> = Vec::new();
    let mut i: usize = 0;
    while i < bytes.len()
        invariant
            i <= bytes.len(),
            copy@ == bytes@.subrange(0, i as int),
        decreases bytes.len() - i,
    {
        copy.push(bytes[i]);
        i = i + 1;
    }
    assert(copy@ =~= bytes@);
    assert(copy.deep_view() =~= bytes@);
    copy
}

fn single_byte(byte: u8) -> (copy: Vec<u8>)
    ensures
        copy.deep_view() == seq![byte],
{
    let mut copy: Vec<u8> = Vec::new();
    copy.push(byte);
    assert(copy.deep_view() =~= seq![byte]);
    copy
}

/// The address of the election that `authority` organizes.
pub fn election_address(program_id: &Address, authority: &Address) -> (found: Option<(Address, u8)>)
    ensures
        found == derived_address(election_seeds(*authority), *program_id),
{
    let mut seeds: Vec<Vec<u8>> = Vec::new();
    seeds.push(copy_bytes(ELECTION_TAG.as_slice()));
    seeds.push(copy_bytes(authority.bytes.as_slice()));
    assert(seeds.deep_view() =~= election_seeds(*authority));
    find_address(&seeds, program_id)
}

/// The address of party `party_id` of `election`.
pub fn party_address(program_id: &Address, election: &Address, party_id: u8) -> (found: Option<(Address, u8)>)
    ensures
        found == derived_address(party_seeds(*election, party_id), *program_id),
{
    let mut seeds: Vec<Vec<u8>> = Vec::new();
    seeds.push(copy_bytes(PARTY_TAG.as_slice()));
    seeds.push(copy_bytes(election.bytes.as_slice()));
    seeds.push(single_byte(party_id));
    assert(seeds.deep_view() =~= party_seeds(*election, party_id));
    find_address(&seeds, program_id)
}

/// The address of the tally of state `state_id` of `election`.
pub fn state_votes_address(program_id: &Address, election: &Address, state_id: u8) -> (found: Option<(Address, u8)>)
    ensures
        found == derived_address(state_votes_seeds(*election, state_id), *program_id),
{
    let mut seeds: Vec<Vec<u8>> = Vec::new();
    seeds.push(copy_bytes(STATE_VOTES_TAG.as_slice()));
    seeds.push(copy_bytes(election.bytes.as_slice()));
    seeds.push(single_byte(state_id));
    assert(seeds.deep_view() =~= state_votes_seeds(*election, state_id));
    find_address(&seeds, program_id)
}

/// The address of the record of `voter`'s vote in state `state_id` of `election`.
pub fn vote_record_address(program_id: &Address, election: &Address, state_id: u8, voter: &Address) -> (found: Option<(Address, u8)>)
    ensures
        found == derived_address(vote_record_seeds(*election, state_id, *voter), *program_id),
{
    let mut seeds: Vec<Vec<u8>> = Vec::new();
    seeds.push(copy_bytes(VOTE_RECORD_TAG.as_slice()));
    seeds.push(copy_bytes(election.bytes.as_slice()));
    seeds.push(single_byte(state_id));
    seeds.push(copy_bytes(voter.bytes.as_slice()));
    assert(seeds.deep_view() =~= vote_record_seeds(*election, state_id, *voter));
    find_address(&seeds, program_id)
}

} // verus!
