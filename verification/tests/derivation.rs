use anchor_lang::prelude::Pubkey;
use anchor_lang::solana_program::system_instruction;
use civic_vote::address::{
    election_address, find_address, party_address, state_votes_address, vote_record_address, Address, ELECTION_TAG,
    PARTY_TAG, STATE_VOTES_TAG, VOTE_RECORD_TAG,
};
use civic_vote::system::{transfer_instruction, AccountMeta, Instruction};

fn key(byte: u8) -> Address {
    Address { bytes: [byte; 32] }
}

fn program() -> Address {
    key(77)
}

fn expected(seeds: &[&[u8]]) -> Option<(Address, u8)> {
    Pubkey::try_find_program_address(seeds, &Pubkey::new_from_array(program().bytes))
        .map(|(found, bump)| (Address { bytes: found.to_bytes() }, bump))
}

#[test]
fn tags_spell_their_names() {
    assert_eq!(&ELECTION_TAG, b"election");
    assert_eq!(&PARTY_TAG, b"party");
    assert_eq!(&STATE_VOTES_TAG, b"state_votes");
    assert_eq!(&VOTE_RECORD_TAG, b"vote_record");
}

#[test]
fn addresses_compare_by_their_bytes() {
    let mut other = key(3);
    assert!(key(3).same_as(&other));
    other.bytes[31] = 4;
    assert!(!key(3).same_as(&other));
    let mut first = key(3);
    first.bytes[0] = 0;
    assert!(!key(3).same_as(&first));
}

#[test]
fn election_address_is_derived_from_the_organizer() {
    let found = election_address(&program(), &key(1));
    assert!(found.is_some());
    assert_eq!(found, expected(&[b"election", &[1u8; 32]]));
    assert_eq!(found, election_address(&program(), &key(1)));
    assert_ne!(found.unwrap().0, election_address(&program(), &key(2)).unwrap().0);
    assert_ne!(found.unwrap().0, key(1));
    assert_ne!(found.unwrap().0, election_address(&key(78), &key(1)).unwrap().0);
}

#[test]
fn party_address_is_derived_from_election_and_party() {
    let found = party_address(&program(), &key(9), 4);
    assert_eq!(found, expected(&[b"party", &[9u8; 32], &[4u8]]));
    assert_ne!(found.unwrap().0, party_address(&program(), &key(9), 5).unwrap().0);
    assert_ne!(found.unwrap().0, party_address(&program(), &key(8), 4).unwrap().0);
}

#[test]
fn state_votes_address_is_derived_from_election_and_state() {
    let found = state_votes_address(&program(), &key(9), 35);
    assert_eq!(found, expected(&[b"state_votes", &[9u8; 32], &[35u8]]));
    assert_ne!(found.unwrap().0, state_votes_address(&program(), &key(9), 34).unwrap().0);
    assert_ne!(found.unwrap().0, party_address(&program(), &key(9), 35).unwrap().0);
}

#[test]
fn vote_record_address_is_derived_from_election_state_and_voter() {
    let found = vote_record_address(&program(), &key(9), 2, &key(5));
    assert_eq!(found, expected(&[b"vote_record", &[9u8; 32], &[2u8], &[5u8; 32]]));
    assert_eq!(found, vote_record_address(&program(), &key(9), 2, &key(5)));
    assert_ne!(found.unwrap().0, vote_record_address(&program(), &key(9), 2, &key(6)).unwrap().0);
    assert_ne!(found.unwrap().0, vote_record_address(&program(), &key(9), 3, &key(5)).unwrap().0);
}

#[test]
fn no_address_is_found_for_seeds_that_are_too_long() {
    let long: Vec<Vec<u8>> = vec![vec![1u8; 33]];
    assert_eq!(find_address(&long, &program()), None);
    let many: Vec<Vec<u8>> = (0u8..16).map(|i| vec![i]).collect();
    assert_eq!(find_address(&many, &program()), None);
    let fine: Vec<Vec<u8>> = vec![vec![1u8; 32]];
    assert_eq!(find_address(&fine, &program()), expected(&[&[1u8; 32]]));
}

#[test]
fn transfer_instruction_is_addressed_to_the_system_program() {
    let built = transfer_instruction(&key(5), &key(1), 0x0102_0304_0506_0708);
    assert_eq!(
        built,
        Instruction {
            program_id: key(0),
            accounts: vec![
                AccountMeta { address: key(5), is_signer: true, is_writable: true },
                AccountMeta { address: key(1), is_signer: false, is_writable: true },
            ],
            data: vec![2, 0, 0, 0, 8, 7, 6, 5, 4, 3, 2, 1],
        }
    );
    let theirs = system_instruction::transfer(
        &Pubkey::new_from_array([5u8; 32]),
        &Pubkey::new_from_array([1u8; 32]),
        0x0102_0304_0506_0708,
    );
    assert_eq!(built.data, theirs.data);
    assert_eq!(built.program_id.bytes, theirs.program_id.to_bytes());
}

#[test]
fn transfer_instruction_reads_back() {
    let built = transfer_instruction(&key(5), &key(1), 1_000);
    let read = built.as_transfer().unwrap();
    assert_eq!(read.from, key(5));
    assert_eq!(read.to, key(1));
    assert_eq!(read.lamports, 1_000);
    let most = transfer_instruction(&key(5), &key(5), u64::MAX).as_transfer().unwrap();
    assert_eq!(most.lamports, u64::MAX);
    assert_eq!(most.to, key(5));
}

#[test]
fn other_instructions_are_no_transfers() {
    let good = transfer_instruction(&key(5), &key(1), 9);
    let with = |change: fn(&mut Instruction)| {
        let mut changed = Instruction {
            program_id: good.program_id,
            accounts: good.accounts.clone(),
            data: good.data.clone(),
        };
        change(&mut changed);
        changed.as_transfer().is_some()
    };
    assert!(with(|_| {}));
    assert!(!with(|i| i.program_id.bytes[31] = 1));
    assert!(!with(|i| i.data[0] = 3));
    assert!(!with(|i| i.data[3] = 1));
    assert!(!with(|i| i.data.push(0)));
    assert!(!with(|i| i.data.truncate(4)));
    assert!(!with(|i| i.accounts[0].is_signer = false));
    assert!(!with(|i| i.accounts[0].is_writable = false));
    assert!(!with(|i| i.accounts[1].is_writable = false));
    assert!(!with(|i| i.accounts.truncate(1)));
    assert!(with(|i| i.accounts[1].is_signer = true));
}
