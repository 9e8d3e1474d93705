//! The voting calendar: which two states may vote on a given day.

use vstd::prelude::*;

verus! {

/// Seconds in one day of the calendar.
pub const SECONDS_PER_DAY: i64 = 86_400;

/// Number of states that take part in an election.
pub const STATE_COUNT: u8 = 36;

/// Number of party slots in a state's tally.
pub const MAX_PARTIES: usize = 10;

/// Longest party name, in characters.
pub const MAX_PARTY_NAME: usize = 50;

/// The calendar of a new election: the states 0 to 35 in rising order, two for each day.
pub open spec fn default_schedule() -> Seq<u8> {
    Seq::new(36, |i: int| i as u8)
}

/// Whole days that have passed at `now` since `start_ts`; none before the start.
pub open spec fn elapsed_days(start_ts: i64, now: i64) -> int {
    if now > start_ts {
        (now - start_ts) / 86_400
    } else {
        0
    }
}

/// The two states that may vote at `now`, or `None` once the calendar is used up.
pub open spec fn allowed_states(schedule: Seq<u8>, start_ts: i64, now: i64) -> Option<(u8, u8)> {
    let first = elapsed_days(start_ts, now) * 2;
    if first + 1 >= schedule.len() {
        None
    } else {
        Some((schedule[first], schedule[first + 1]))
    }
}

/// Builds the calendar of a new election.
pub fn state_schedule() -> (schedule: Vec<u8>)
    ensures
        schedule@ == default_schedule(),
{
    let mut schedule: Vec<u8> = Vec::new();
    let mut state: u8 = 0;
    while state < STATE_COUNT
        invariant
            state <= STATE_COUNT,
            schedule@.len() == state,
            forall|i: int| 0 <= i < state ==> schedule@[i] == i as u8,
        decreases STATE_COUNT - state,
    {
        schedule.push(state);
        state = state + 1;
    }
    assert(schedule@ =~= default_schedule());
    schedule
}

/// The pair of states scheduled for the day of `now`, counted from `start_ts`.
pub fn allowed_regions(schedule: &Vec<u8>, start_ts: i64, now: i64) -> (pair: Option<(u8, u8)>)
    ensures
        pair == allowed_states(schedule@, start_ts, now),
{
    let days: i128 = if now > start_ts {
        (now as i128 - start_ts as i128) / 86_400
    } else {
        0
    };
    let first: i128 = days * 2;
    if first + 1 >= schedule.len() as i128 {
        None
    } else {
        let index: usize = first as usize;
        Some((schedule[index], schedule[index + 1]))
    }
}

/// On day `day` after the start, counted from 0, a calendar of 36 entries
/// opens its entries `2 * day` and `2 * day + 1`; from day 18 on it opens none.
pub proof fn lemma_allowed_states_by_day(schedule: Seq<u8>, start_ts: i64, now: i64, day: int)
    requires
        schedule.len() == 36,
        0 <= day,
        start_ts + day * 86_400 <= now < start_ts + (day + 1) * 86_400,
    ensures
        day < 18 ==> allowed_states(schedule, start_ts, now) == Some((schedule[2 * day], schedule[2 * day + 1])),
        day >= 18 ==> allowed_states(schedule, start_ts, now) is None,
{
    let diff = now - start_ts;
    assert(diff / 86_400 == day) by (nonlinear_arith)
        requires
            day * 86_400 <= diff < (day + 1) * 86_400,
    ;
}

/// Before the start the calendar is on its first day.
pub proof fn lemma_allowed_states_before_start(schedule: Seq<u8>, start_ts: i64, now: i64)
    requires
        schedule.len() >= 2,
        now <= start_ts,
    ensures
        allowed_states(schedule, start_ts, now) == Some((schedule[0], schedule[1])),
{
}

} // verus!
