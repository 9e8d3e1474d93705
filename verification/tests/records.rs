use civic_vote::address::Address;
use civic_vote::error::VoteError;
use civic_vote::records::{
    check_ballot, check_count, check_election, check_party, check_state_votes, count_ballot, ElectionConfig, Party,
    StateVotes, VoteRecord,
};
use civic_vote::schedule::{allowed_regions, state_schedule, MAX_PARTIES, MAX_PARTY_NAME, SECONDS_PER_DAY, STATE_COUNT};

const T: i64 = 1_700_000_000;

fn key(byte: u8) -> Address {
    Address { bytes: [byte; 32] }
}

fn election(start_ts: i64, end_ts: i64) -> ElectionConfig {
    ElectionConfig::create(key(1), start_ts, start_ts, end_ts, 5, 254).unwrap()
}

fn tally(state_id: u8) -> StateVotes {
    StateVotes { election: key(9), state_id, votes: [0; 10], total_votes: 0, bump: 250 }
}

#[test]
fn constants_have_their_values() {
    assert_eq!(SECONDS_PER_DAY, 86_400);
    assert_eq!(STATE_COUNT, 36);
    assert_eq!(MAX_PARTIES, 10);
    assert_eq!(MAX_PARTY_NAME, 50);
}

#[test]
fn schedule_lists_states_in_rising_pairs() {
    let schedule = state_schedule();
    assert_eq!(schedule.len(), 36);
    for (i, state) in schedule.iter().enumerate() {
        assert_eq!(*state as usize, i);
    }
    assert_eq!(schedule[34], 34);
    assert_eq!(schedule[35], 35);
}

#[test]
fn allowed_regions_follow_the_days() {
    let schedule = state_schedule();
    assert_eq!(allowed_regions(&schedule, T, T), Some((0, 1)));
    assert_eq!(allowed_regions(&schedule, T, T + 86_399), Some((0, 1)));
    assert_eq!(allowed_regions(&schedule, T, T + 86_400), Some((2, 3)));
    assert_eq!(allowed_regions(&schedule, T, T + 17 * 86_400), Some((34, 35)));
    assert_eq!(allowed_regions(&schedule, T, T + 18 * 86_400 - 1), Some((34, 35)));
    assert_eq!(allowed_regions(&schedule, T, T + 18 * 86_400), None);
    assert_eq!(allowed_regions(&schedule, T, T + 400 * 86_400), None);
}

#[test]
fn allowed_regions_before_the_start_are_those_of_the_first_day() {
    let schedule = state_schedule();
    assert_eq!(allowed_regions(&schedule, T, T - 1), Some((0, 1)));
    assert_eq!(allowed_regions(&schedule, T, i64::MIN), Some((0, 1)));
}

#[test]
fn allowed_regions_take_the_schedule_as_it_is() {
    let schedule: Vec<u8> = vec![7, 3, 9];
    assert_eq!(allowed_regions(&schedule, 0, 10), Some((7, 3)));
    assert_eq!(allowed_regions(&schedule, 0, 86_400), None);
    let empty: Vec<u8> = Vec::new();
    assert_eq!(allowed_regions(&empty, 0, 0), None);
    let single: Vec<u8> = vec![4];
    assert_eq!(allowed_regions(&single, 0, 0), None);
}

#[test]
fn allowed_regions_do_not_wrap_on_extreme_times() {
    let schedule = state_schedule();
    assert_eq!(allowed_regions(&schedule, -5, i64::MAX), None);
    assert_eq!(allowed_regions(&schedule, i64::MIN, i64::MAX), None);
    assert_eq!(allowed_regions(&schedule, i64::MAX, i64::MIN), Some((0, 1)));
}

#[test]
fn election_is_created_with_no_votes() {
    let created = ElectionConfig::create(key(1), T, T, T + 100, 7, 253).unwrap();
    assert_eq!(created.authority, key(1));
    assert_eq!(created.start_ts, T);
    assert_eq!(created.end_ts, T + 100);
    assert_eq!(created.vote_fee_lamports, 7);
    assert_eq!(created.total_votes, 0);
    assert_eq!(created.state_schedule, (0u8..36).collect::<Vec<u8>>());
    assert_eq!(created.bump, 253);
    assert_eq!(created.allowed_regions(T + 86_400), Some((2, 3)));
}

#[test]
fn election_times_are_checked() {
    assert_eq!(check_election(T, T, T + 1), Ok(()));
    assert_eq!(check_election(T, T + 10, T + 10), Err(VoteError::InvalidTimeRange));
    assert_eq!(check_election(T, T + 10, T + 9), Err(VoteError::InvalidTimeRange));
    assert_eq!(check_election(T, T - 1, T + 100), Err(VoteError::StartInPast));
    assert_eq!(check_election(T, T - 1, T - 2), Err(VoteError::InvalidTimeRange));
    assert_eq!(ElectionConfig::create(key(1), T, T - 1, T + 100, 0, 1), Err(VoteError::StartInPast));
    assert_eq!(ElectionConfig::create(key(1), T, T + 5, T + 5, 0, 1), Err(VoteError::InvalidTimeRange));
}

#[test]
fn party_name_has_one_to_fifty_characters() {
    let open = election(T, T + 100);
    let fifty = "a".repeat(50);
    let fifty_one = "a".repeat(51);
    assert_eq!(check_party(&open, T - 1, &fifty), Ok(()));
    assert_eq!(check_party(&open, T - 1, "a"), Ok(()));
    assert_eq!(check_party(&open, T - 1, &fifty_one), Err(VoteError::InvalidPartyName));
    assert_eq!(check_party(&open, T - 1, ""), Err(VoteError::InvalidPartyName));
    let party = Party::create(&open, key(9), T - 1, 3, fifty.clone(), 200).unwrap();
    assert_eq!(party, Party { election: key(9), party_id: 3, name: fifty, bump: 200 });
    assert_eq!(Party::create(&open, key(9), T - 1, 3, fifty_one, 200), Err(VoteError::InvalidPartyName));
}

#[test]
fn party_name_is_measured_in_characters() {
    let open = election(T, T + 100);
    let fifty = "\u{e9}".repeat(50);
    let fifty_one = "\u{e9}".repeat(51);
    assert_eq!(check_party(&open, T - 1, &fifty), Ok(()));
    assert_eq!(check_party(&open, T - 1, &fifty_one), Err(VoteError::InvalidPartyName));
}

#[test]
fn party_is_refused_once_voting_has_opened() {
    let open = election(T, T + 100);
    assert_eq!(check_party(&open, T, "Unity"), Err(VoteError::ElectionAlreadyStarted));
    assert_eq!(check_party(&open, T + 1, ""), Err(VoteError::ElectionAlreadyStarted));
    assert_eq!(check_party(&open, T + 1, &"a".repeat(51)), Err(VoteError::ElectionAlreadyStarted));
    assert_eq!(
        Party::create(&open, key(9), T, 0, String::from("Unity"), 1),
        Err(VoteError::ElectionAlreadyStarted)
    );
}

#[test]
fn state_votes_start_at_zero() {
    let open = election(T, T + 100);
    let created = StateVotes::create(&open, key(9), T - 1, 35, 7).unwrap();
    assert_eq!(created, StateVotes { election: key(9), state_id: 35, votes: [0; 10], total_votes: 0, bump: 7 });
    assert_eq!(StateVotes::create(&open, key(9), T - 1, 0, 7).unwrap().state_id, 0);
}

#[test]
fn state_id_above_35_is_refused() {
    let open = election(T, T + 100);
    assert_eq!(check_state_votes(&open, T - 1, 35), Ok(()));
    assert_eq!(check_state_votes(&open, T - 1, 36), Err(VoteError::InvalidStateId));
    assert_eq!(check_state_votes(&open, T + 1, 36), Err(VoteError::InvalidStateId));
    assert_eq!(check_state_votes(&open, T, 35), Err(VoteError::ElectionAlreadyStarted));
    assert_eq!(StateVotes::create(&open, key(9), T - 1, 36, 7), Err(VoteError::InvalidStateId));
    assert_eq!(StateVotes::create(&open, key(9), T, 3, 7), Err(VoteError::ElectionAlreadyStarted));
}

#[test]
fn vote_record_holds_what_it_is_given() {
    let record = VoteRecord::create(key(9), 4, key(5), T + 3, 201);
    assert_eq!(record, VoteRecord { election: key(9), state_id: 4, voter: key(5), voted_at: T + 3, bump: 201 });
}

#[test]
fn ballot_is_checked_in_order() {
    let open = election(T, T + 40 * 86_400);
    assert_eq!(check_ballot(&open, &tally(0), T, 0, 0), Ok(()));
    assert_eq!(check_ballot(&open, &tally(1), T + 5, 1, 9), Ok(()));
    assert_eq!(check_ballot(&open, &tally(2), T + 86_400, 2, 9), Ok(()));
    assert_eq!(check_ballot(&open, &tally(0), T - 1, 0, 0), Err(VoteError::VotingNotStarted));
    assert_eq!(check_ballot(&open, &tally(0), T + 40 * 86_400 + 1, 0, 0), Err(VoteError::VotingEnded));
    assert_eq!(check_ballot(&open, &tally(1), T, 0, 0), Err(VoteError::InvalidStateId));
    assert_eq!(check_ballot(&open, &tally(0), T, 0, 10), Err(VoteError::InvalidPartyId));
    assert_eq!(check_ballot(&open, &tally(2), T, 2, 0), Err(VoteError::StateNotScheduledToday));
    assert_eq!(check_ballot(&open, &tally(0), T + 86_400, 0, 0), Err(VoteError::StateNotScheduledToday));
    assert_eq!(check_ballot(&open, &tally(0), T + 18 * 86_400, 0, 0), Err(VoteError::VotingEnded));
    assert_eq!(check_ballot(&open, &tally(1), T - 1, 0, 10), Err(VoteError::VotingNotStarted));
    assert_eq!(check_ballot(&open, &tally(1), T, 0, 10), Err(VoteError::InvalidStateId));
}

#[test]
fn ballot_on_the_last_second_is_admitted() {
    let open = election(T, T + 100);
    assert_eq!(check_ballot(&open, &tally(1), T + 100, 1, 0), Ok(()));
    assert_eq!(check_ballot(&open, &tally(1), T + 101, 1, 0), Err(VoteError::VotingEnded));
}

#[test]
fn counting_adds_one_to_each_counter() {
    let mut open = election(T, T + 100);
    let mut votes = tally(0);
    assert_eq!(count_ballot(&mut open, &mut votes, 3), Ok(()));
    assert_eq!(count_ballot(&mut open, &mut votes, 3), Ok(()));
    assert_eq!(count_ballot(&mut open, &mut votes, 9), Ok(()));
    assert_eq!(votes.votes, [0, 0, 0, 2, 0, 0, 0, 0, 0, 1]);
    assert_eq!(votes.total_votes, 3);
    assert_eq!(open.total_votes, 3);
}

#[test]
fn full_counter_leaves_all_three_unchanged() {
    let fresh = election(T, T + 100);

    let mut open = fresh.clone();
    let mut votes = tally(0);
    votes.votes[2] = u64::MAX;
    votes.total_votes = 8;
    let before = votes;
    assert_eq!(check_count(&open, &votes, 2), Err(VoteError::VoteOverflow));
    assert_eq!(count_ballot(&mut open, &mut votes, 2), Err(VoteError::VoteOverflow));
    assert_eq!(votes, before);
    assert_eq!(open, fresh);
    assert_eq!(count_ballot(&mut open, &mut votes, 1), Ok(()));

    let mut open = fresh.clone();
    let mut votes = tally(0);
    votes.total_votes = u64::MAX;
    let before = votes;
    assert_eq!(count_ballot(&mut open, &mut votes, 2), Err(VoteError::VoteOverflow));
    assert_eq!(votes, before);
    assert_eq!(open, fresh);

    let mut open = fresh.clone();
    open.total_votes = u64::MAX;
    let full = open.clone();
    let mut votes = tally(0);
    let before = votes;
    assert_eq!(count_ballot(&mut open, &mut votes, 2), Err(VoteError::VoteOverflow));
    assert_eq!(votes, before);
    assert_eq!(open, full);
}

#[test]
fn counting_refuses_a_party_without_a_slot() {
    let mut open = election(T, T + 100);
    let mut votes = tally(0);
    assert_eq!(check_count(&open, &votes, 10), Err(VoteError::InvalidPartyId));
    assert_eq!(count_ballot(&mut open, &mut votes, 255), Err(VoteError::InvalidPartyId));
    assert_eq!(votes, tally(0));
    assert_eq!(open.total_votes, 0);
}

#[test]
fn errors_describe_themselves() {
    assert_eq!(VoteError::InvalidTimeRange.message(), "End time must be after start time");
    assert_eq!(VoteError::StartInPast.message(), "Start time cannot be in the past");
    assert_eq!(VoteError::ElectionAlreadyStarted.message(), "Election has already started");
    assert_eq!(VoteError::InvalidPartyName.message(), "Invalid party name");
    assert_eq!(VoteError::InvalidStateId.message(), "Invalid state ID");
    assert_eq!(VoteError::VotingNotStarted.message(), "Voting has not started");
    assert_eq!(VoteError::VotingEnded.message(), "Voting has ended");
    assert_eq!(VoteError::InvalidPartyId.message(), "Invalid party ID");
    assert_eq!(VoteError::VoteOverflow.message(), "Vote counter overflow");
    assert_eq!(VoteError::StateNotScheduledToday.message(), "State is not scheduled to vote today");
    assert_eq!(VoteError::MathOverflow.message(), "Math Overflow");
}
