//! The externally invokable entry points: the pure greeting pair, the
//! counter increment, and the state read.

use vstd::prelude::*;
use crate::host::{
    storage_get_state, storage_set_state, string_chars, string_from_str, vec_pair, vec_strings,
};
use crate::state::{apply_increment, state_from_stored, State};

verus! {

/// The program itself. It has no fields: all durable state lives in the
/// host's persistent store, under one fixed key.
pub struct HelloContract;

impl HelloContract {
    /// Returns the two-element sequence `["Hello", to]`, for any text `to`.
    /// Pure: no state is read or written.
    pub fn hello(env: soroban_sdk::Env, to: soroban_sdk::String) -> (r: soroban_sdk::Vec<
        soroban_sdk::String,
    >)
        ensures
            vec_strings(r) == seq!["Hello"@, string_chars(to)],
    {
        let word = string_from_str(&env, "Hello");
        vec_pair(&env, word, to)
    }

    /// Returns the two-element sequence `["Goodbye", to]`, for any text
    /// `to`. Pure: no state is read or written.
    pub fn goodbye(env: soroban_sdk::Env, to: soroban_sdk::String) -> (r: soroban_sdk::Vec<
        soroban_sdk::String,
    >)
        ensures
            vec_strings(r) == seq!["Goodbye"@, string_chars(to)],
    {
        let word = string_from_str(&env, "Goodbye");
        vec_pair(&env, word, to)
    }

    /// Read-modify-write: adds `incr` to the stored total, records `incr` as
    /// the most recent increment, commits the new record as one value, and
    /// returns the new total. Returns `None` — committing nothing, so the
    /// stored record is left exactly as it was — when the addition would
    /// overflow `u32`; that is this library's fixed overflow policy.
    ///
    /// The prior total is decided by the host's durable store; whatever it
    /// was, a successful call returns at least `incr`, and a zero increment
    /// always succeeds, since the total cannot overflow by adding zero. How
    /// the new record is computed from a given prior record is fixed by
    /// `apply_increment`.
    pub fn increment(env: soroban_sdk::Env, incr: u32) -> (r: Option<u32>)
        ensures
            r matches Some(c) ==> c >= incr,
            incr == 0 ==> r is Some,
    {
        let state = state_from_stored(storage_get_state(&env));
        match apply_increment(state, incr) {
            Some(new_state) => {
                storage_set_state(&env, &new_state);
                Some(new_state.count)
            },
            None => None,
        }
    }

    /// Returns the current record: what the host's durable store holds under
    /// the fixed key, or the all-zero default when nothing has ever been
    /// committed. No side effect. Which record comes back is decided by the
    /// store; how a read value becomes a record is fixed by
    /// `state_from_stored`.
    pub fn get_state(env: soroban_sdk::Env) -> (r: State) {
        state_from_stored(storage_get_state(&env))
    }
}

} // verus!
