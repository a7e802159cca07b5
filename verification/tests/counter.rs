use hello_world::contract::HelloContract;
use hello_world::state::State;
use soroban_sdk::testutils::ContractFunctionSet;
use soroban_sdk::testutils::EnvTestConfig;
use soroban_sdk::{Env, Val};

struct Shell;

impl ContractFunctionSet for Shell {
    fn call(&self, _func: &str, _env: Env, _args: &[Val]) -> Option<Val> {
        None
    }
}

#[test]
fn fresh_state_is_all_zero() {
    let env = Env::new_with_config(EnvTestConfig { capture_snapshot_at_drop: false });
    let id = env.register(Shell, ());
    let got = env.as_contract(&id, || HelloContract::get_state(env.clone()));
    assert_eq!(got, State { count: 0, last_incr: 0 });
}

#[test]
fn single_increment_returns_and_persists_the_new_total() {
    let env = Env::new_with_config(EnvTestConfig { capture_snapshot_at_drop: false });
    let id = env.register(Shell, ());
    let ret = env.as_contract(&id, || HelloContract::increment(env.clone(), 5));
    assert_eq!(ret, Some(5));
    let got = env.as_contract(&id, || HelloContract::get_state(env.clone()));
    assert_eq!(got, State { count: 5, last_incr: 5 });
}

#[test]
fn sequential_increments_accumulate_and_keep_only_the_last() {
    let env = Env::new_with_config(EnvTestConfig { capture_snapshot_at_drop: false });
    let id = env.register(Shell, ());
    let first = env.as_contract(&id, || HelloContract::increment(env.clone(), 3));
    assert_eq!(first, Some(3));
    let second = env.as_contract(&id, || HelloContract::increment(env.clone(), 4));
    assert_eq!(second, Some(7));
    let got = env.as_contract(&id, || HelloContract::get_state(env.clone()));
    assert_eq!(got, State { count: 7, last_incr: 4 });
}

#[test]
fn zero_increment_keeps_count_but_records_zero() {
    let env = Env::new_with_config(EnvTestConfig { capture_snapshot_at_drop: false });
    let id = env.register(Shell, ());
    let first = env.as_contract(&id, || HelloContract::increment(env.clone(), 7));
    assert_eq!(first, Some(7));
    let second = env.as_contract(&id, || HelloContract::increment(env.clone(), 0));
    assert_eq!(second, Some(7));
    let got = env.as_contract(&id, || HelloContract::get_state(env.clone()));
    assert_eq!(got, State { count: 7, last_incr: 0 });
}

#[test]
fn reading_twice_returns_identical_records() {
    let env = Env::new_with_config(EnvTestConfig { capture_snapshot_at_drop: false });
    let id = env.register(Shell, ());
    env.as_contract(&id, || HelloContract::increment(env.clone(), 9));
    let first = env.as_contract(&id, || HelloContract::get_state(env.clone()));
    let second = env.as_contract(&id, || HelloContract::get_state(env.clone()));
    assert_eq!(first, second);
}

#[test]
fn overflow_aborts_without_mutation() {
    let env = Env::new_with_config(EnvTestConfig { capture_snapshot_at_drop: false });
    let id = env.register(Shell, ());
    let first = env.as_contract(&id, || HelloContract::increment(env.clone(), u32::MAX));
    assert_eq!(first, Some(u32::MAX));
    let second = env.as_contract(&id, || HelloContract::increment(env.clone(), 1));
    assert_eq!(second, None);
    let got = env.as_contract(&id, || HelloContract::get_state(env.clone()));
    assert_eq!(got, State { count: u32::MAX, last_incr: u32::MAX });
}
