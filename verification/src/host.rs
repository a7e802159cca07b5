//! Declarations of the host-environment types this library's signatures
//! mention, and the trusted wrappers around the few calls it makes into the
//! host: building host strings and vectors, and reading and committing the
//! one persisted record.

use vstd::prelude::*;
use crate::state::State;

verus! {

#[verifier::external_type_specification]
#[verifier::external_body]
pub struct ExEnv(soroban_sdk::Env);

#[verifier::external_type_specification]
#[verifier::external_body]
pub struct ExString(soroban_sdk::String);

#[verifier::external_type_specification]
#[verifier::external_body]
#[verifier::reject_recursive_types(T)]
pub struct ExVec<T>(soroban_sdk::Vec<T>);

/// The text a host string holds, as a sequence of characters.
pub uninterp spec fn string_chars(s: soroban_sdk::String) -> Seq<char>;

/// The contents of a host vector of strings, each element as its text.
pub uninterp spec fn vec_strings(v: soroban_sdk::Vec<soroban_sdk::String>) -> Seq<Seq<char>>;

/// Relies on soroban_sdk::String::from_str: the new host string holds
/// exactly the text of `s`.
#[verifier::external_body]
pub(crate) fn string_from_str(env: &soroban_sdk::Env, s: &str) -> (r: soroban_sdk::String)
    ensures
        string_chars(r) == s@,
{
    soroban_sdk::String::from_str(env, s)
}

/// Relies on soroban_sdk::Vec::from_array: the new host vector holds exactly
/// the two given elements, in order.
#[verifier::external_body]
pub(crate) fn vec_pair(
    env: &soroban_sdk::Env,
    first: soroban_sdk::String,
    second: soroban_sdk::String,
) -> (r: soroban_sdk::Vec<soroban_sdk::String>)
    ensures
        vec_strings(r) == seq![string_chars(first), string_chars(second)],
{
    soroban_sdk::Vec::from_array(env, [first, second])
}

/// Relies on soroban_sdk's persistent storage `get`, on the fixed key
/// `STATE` (built with Symbol::new, which accepts this constant): `Some` of
/// the record last committed, or `None` when the key has never been written.
/// Which of the two comes back is decided by the host's durable store, so
/// nothing is promised of the value.
#[verifier::external_body]
pub(crate) fn storage_get_state(env: &soroban_sdk::Env) -> (r: Option<State>)
{
    let stored: Option<(u32, u32)> =
        env.storage().persistent().get(&soroban_sdk::Symbol::new(env, "STATE"));
    match stored {
        Some((count, last_incr)) => Some(State { count, last_incr }),
        None => None,
    }
}

/// Relies on soroban_sdk's persistent storage `set`, on the same fixed key
/// `STATE`: replaces whatever was stored with the given record, as one whole
/// value. This is the only durable mutation the library makes.
#[verifier::external_body]
pub(crate) fn storage_set_state(env: &soroban_sdk::Env, state: &State)
{
    env.storage().persistent().set(
        &soroban_sdk::Symbol::new(env, "STATE"),
        &(state.count, state.last_incr),
    );
}

} // verus!
