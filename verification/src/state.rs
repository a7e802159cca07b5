//! The persisted state record and the pure state-transition logic: how the
//! record is defaulted when absent, how one increment transforms it, and the
//! laws the lifecycle obeys.

use vstd::prelude::*;

verus! {

/// The single record this program persists: a running total and the amount
/// applied by the most recent mutating call.
#[derive(Clone, Copy, PartialEq, Eq, Structural, Debug)]
pub struct State {
    pub count: u32,
    pub last_incr: u32,
}

/// The record of a fresh deployment, before anything has been persisted.
pub open spec fn initial_state() -> State {
    State { count: 0, last_incr: 0 }
}

impl Default for State {
    /// The all-zero record synthesized when the store holds nothing.
    fn default() -> (r: State)
        ensures
            r == initial_state(),
    {
        State { count: 0, last_incr: 0 }
    }
}

/// What a read of the store yields: the stored record, or the all-zero
/// default when the key has never been written.
pub open spec fn state_of(stored: Option<State>) -> State {
    match stored {
        Option::Some(s) => s,
        Option::None => initial_state(),
    }
}

/// The record after applying one increment of `incr` to `s`, or `None`
/// exactly when the new total would not fit in `u32`: the increment then
/// aborts and nothing may be committed.
pub open spec fn incr_spec(s: State, incr: u32) -> Option<State> {
    if s.count + incr <= u32::MAX {
        Option::Some(State { count: (s.count + incr) as u32, last_incr: incr })
    } else {
        Option::None
    }
}

/// Default-on-absence: turns what the store returned into the current record.
pub fn state_from_stored(stored: Option<State>) -> (r: State)
    ensures
        r == state_of(stored),
{
    match stored {
        Some(s) => s,
        None => State { count: 0, last_incr: 0 },
    }
}

/// One read-modify step: the record after `increment(incr)`, or `None` when
/// the addition would overflow `u32`. On `None` the caller must commit
/// nothing, so the persisted record stays as it was.
pub fn apply_increment(s: State, incr: u32) -> (r: Option<State>)
    ensures
        r == incr_spec(s, incr),
        r is None <==> s.count + incr > u32::MAX,
{
    if incr <= u32::MAX - s.count {
        Some(State { count: s.count + incr, last_incr: incr })
    } else {
        None
    }
}

/// A zero increment is a real transition: it always succeeds, the total is
/// unchanged, and the recorded last increment becomes zero.
pub proof fn lemma_increment_zero(s: State)
    ensures
        incr_spec(s, 0) matches Some(n) && n.count == s.count && n.last_incr == 0,
{
}

/// Reading the store has no side effect: two reads with no intervening
/// commit see the same stored value, so they yield identical records.
pub proof fn lemma_read_is_stable(stored: Option<State>, first: State, second: State)
    requires
        first == state_of(stored),
        second == state_of(stored),
    ensures
        first == second,
{
}

/// Overflow aborts without mutation: when the new total would not fit in
/// `u32`, the increment produces no record to commit at all.
pub proof fn lemma_overflow_aborts(s: State, incr: u32)
    requires
        s.count + incr > u32::MAX,
    ensures
        incr_spec(s, incr) is None,
{
}

/// The sum of a sequence of increment amounts.
pub open spec fn sum_of(incrs: Seq<u32>) -> int
    decreases incrs.len(),
{
    if incrs.len() == 0 {
        0
    } else {
        sum_of(incrs.drop_last()) + incrs.last()
    }
}

/// The record after replaying a whole history of successful increments from
/// a fresh deployment, or `None` if some step overflowed and the history is
/// impossible.
pub open spec fn replay(incrs: Seq<u32>) -> Option<State>
    decreases incrs.len(),
{
    if incrs.len() == 0 {
        Option::Some(initial_state())
    } else {
        match replay(incrs.drop_last()) {
            Option::Some(s) => incr_spec(s, incrs.last()),
            Option::None => Option::None,
        }
    }
}

/// The record's core invariant: after any history of successfully committed
/// increments, `count` equals the sum of every amount ever applied, and
/// `last_incr` is the most recent amount.
pub proof fn lemma_count_is_running_total(incrs: Seq<u32>)
    ensures
        replay(incrs) matches Some(s) ==> s.count == sum_of(incrs),
        incrs.len() > 0 ==> (replay(incrs) matches Some(s) ==> s.last_incr == incrs.last()),
    decreases incrs.len(),
{
    if incrs.len() > 0 {
        lemma_count_is_running_total(incrs.drop_last());
    }
}

} // verus!
