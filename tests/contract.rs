use rent_escrow::contract::RentContract;
use rent_escrow::harness::{setup_test_env, RentContractClient};
use soroban_sdk::testutils::Address as _;
use soroban_sdk::{Address, Env, Symbol};

#[test]
fn test_hello() {
    let (env, _user, client) = setup_test_env();

    let words = client.hello(&Symbol::new(&env, "Dev"));
    assert_eq!(words, Symbol::new(&env, "Hello"));
}

#[test]
fn test_mock_environment() {
    let (env, user, _client) = setup_test_env();

    assert!(user.to_string().len() > 0);
    assert_eq!(env.ledger().sequence(), 0);
}

#[test]
fn hello_answers_the_same_for_every_input() {
    let (env, _user, client) = setup_test_env();
    let inputs = ["", "Hello", "a", "_", "World_123", "abcdefghijklmnopqrstuvwxyz012345"];
    for s in inputs {
        let words = client.hello(&Symbol::new(&env, s));
        assert_eq!(words, Symbol::new(&env, "Hello"));
        assert_eq!(words.to_string(), "Hello");
    }
}

#[test]
fn hello_called_directly_answers_hello() {
    let env = Env::default();
    let words = RentContract::hello(env.clone(), Symbol::new(&env, "Dev"));
    assert_eq!(words.to_string(), "Hello");
    assert_ne!(words, Symbol::new(&env, "Dev"));
}

#[test]
fn fresh_environment_reports_sequence_zero() {
    let (env, _user, client) = setup_test_env();
    assert_eq!(env.ledger().sequence(), 0);
    client.hello(&Symbol::new(&env, "Dev"));
    assert_eq!(env.ledger().sequence(), 0);
}

#[test]
fn generated_addresses_have_text() {
    let (env, user, client) = setup_test_env();
    assert!(user.to_string().len() > 0);
    assert!(client.address.to_string().len() > 0);
    for _ in 0..5 {
        let a = Address::generate(&env);
        assert!(a.to_string().len() > 0);
    }
}

#[test]
fn two_setups_are_independent() {
    let (env_a, _user_a, client_a) = setup_test_env();
    let (env_b, _user_b, client_b) = setup_test_env();
    assert_eq!(env_a.ledger().sequence(), 0);
    assert_eq!(env_b.ledger().sequence(), 0);
    let words = client_a.hello(&Symbol::new(&env_a, "Dev"));
    assert_eq!(words.to_string(), "Hello");
    assert_eq!(env_a.ledger().sequence(), 0);
    assert_eq!(env_b.ledger().sequence(), 0);
    let words = client_b.hello(&Symbol::new(&env_b, "Dev"));
    assert_eq!(words.to_string(), "Hello");
}

#[test]
fn hello_succeeds_whichever_caller_the_environment_generated() {
    let (env, _user, client) = setup_test_env();
    for _ in 0..3 {
        let _caller = Address::generate(&env);
        let words = client.hello(&Symbol::new(&env, "Dev"));
        assert_eq!(words.to_string(), "Hello");
    }
}

#[test]
fn client_keeps_the_identifier_it_was_given() {
    let (env, _user, _client) = setup_test_env();
    let id = Address::generate(&env);
    let client = RentContractClient::new(&env, &id);
    assert_eq!(client.address, id);
    let words = client.hello(&Symbol::new(&env, "Dev"));
    assert_eq!(words.to_string(), "Hello");
}
