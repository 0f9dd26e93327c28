//! The test harness: a sandbox environment with authorization bypassed, a
//! synthetic caller, and a typed client for the entry point.
//!
//! No contract is registered with the host here: the client holds an
//! identifier generated by the environment and calls the entry point
//! directly, in the same process. Registration and dispatch through the host
//! need the SDK's contract attributes and live outside this library.
use vstd::prelude::*;
use crate::contract::{greeting_text, RentContract};
use crate::host::{generate_address, is_test_sandbox, mock_all_auths, new_env, symbol_text};
use soroban_sdk::{Address, Env, Symbol};

verus! {

/// A typed handle on the entry point that holds an environment and an
/// identifier for the contract in it.
pub struct RentContractClient {
    pub env: Env,
    pub address: Address,
}

impl RentContractClient {
    /// A client holding the environment `env` and the identifier
    /// `contract_id`.
    pub fn new(env: &Env, contract_id: &Address) -> (r: RentContractClient)
        ensures
            r.env == *env,
            r.address == *contract_id,
    {
        RentContractClient { env: env.clone(), address: contract_id.clone() }
    }

    /// Calls the entry point directly, with the client's environment. It has
    /// no precondition, so the call always succeeds and answers `Hello`.
    pub fn hello(&self, to: &Symbol) -> (r: Symbol)
        ensures
            symbol_text(r) == greeting_text(),
    {
        RentContract::hello(self.env.clone(), to.clone())
    }
}

/// Builds a fresh environment and mocks every authorization in it, generates
/// an identifier for the contract and a synthetic caller there, and returns
/// the environment, the caller and a client holding that environment and
/// identifier. Nothing is registered with the host.
pub fn setup_test_env() -> (r: (Env, Address, RentContractClient))
    ensures
        is_test_sandbox(r.0),
        r.2.env == r.0,
{
    let env = new_env();
    mock_all_auths(&env);
    let contract_id = generate_address(&env);
    let client = RentContractClient::new(&env, &contract_id);
    let user = generate_address(&env);
    (env, user, client)
}

} // verus!
