//! The host environment as seen by this library: the SDK's types and the few
//! calls into it, each with the contract that the SDK's source gives it.
use vstd::prelude::*;

verus! {

#[verifier::external_type_specification]
#[verifier::external_body]
pub struct ExEnv(soroban_sdk::Env);

#[verifier::external_type_specification]
#[verifier::external_body]
pub struct ExSymbol(soroban_sdk::Symbol);

#[verifier::external_type_specification]
#[verifier::external_body]
pub struct ExAddress(soroban_sdk::Address);

/// Relies on the SDK's derived `Clone` for `Env`: it copies the shared handles,
/// so the clone is the same handle on the same sandbox.
pub assume_specification[ <soroban_sdk::Env as Clone>::clone ](e: &soroban_sdk::Env) -> (r: soroban_sdk::Env)
    ensures
        r == *e,
;

/// Relies on the SDK's derived `Clone` for `Address`: it copies the environment
/// handle and the object handle, so the clone is the same address.
pub assume_specification[ <soroban_sdk::Address as Clone>::clone ](a: &soroban_sdk::Address) -> (r: soroban_sdk::Address)
    ensures
        r == *a,
;

/// Relies on the SDK's derived `Clone` for `Symbol`: it copies the environment
/// handle and the symbol's value, so the clone is the same symbol.
pub assume_specification[ <soroban_sdk::Symbol as Clone>::clone ](s: &soroban_sdk::Symbol) -> (r: soroban_sdk::Symbol)
    ensures
        r == *s,
;

/// Whether an environment is one that test code built, rather than the one
/// that the host hands to a contract function during a call. Only the former
/// can generate values such as addresses.
pub uninterp spec fn is_test_sandbox(e: soroban_sdk::Env) -> bool;

/// The characters that a symbol stands for (what `Symbol::to_string` gives).
pub uninterp spec fn symbol_text(s: soroban_sdk::Symbol) -> Seq<char>;

/// The characters that a short symbol may hold: `a-z`, `A-Z`, `0-9` and `_`.
pub open spec fn is_symbol_char(c: char) -> bool {
    ('a' <= c && c <= 'z') || ('A' <= c && c <= 'Z') || ('0' <= c && c <= '9') || c == '_'
}

/// A text that a short symbol can hold: at most nine symbol characters.
pub open spec fn is_short_symbol_text(s: Seq<char>) -> bool {
    s.len() <= 9 && forall|i: int| 0 <= i < s.len() ==> is_symbol_char(#[trigger] s[i])
}

/// Relies on `soroban_sdk::Symbol::short`: it packs a text of at most nine
/// symbol characters into a small symbol standing for that same text, and
/// panics on any other text.
#[verifier::external_body]
#[allow(deprecated)]
pub(crate) fn short_symbol(s: &str) -> (r: soroban_sdk::Symbol)
    requires
        is_short_symbol_text(s@),
    ensures
        symbol_text(r) == s@,
{
    soroban_sdk::Symbol::short(s)
}

/// Relies on `soroban_sdk::Env::default` (with the SDK's test utilities): a
/// fresh, isolated sandbox ledger, built as test code's environment.
#[verifier::external_body]
pub(crate) fn new_env() -> (r: soroban_sdk::Env)
    ensures
        is_test_sandbox(r),
{
    soroban_sdk::Env::default()
}

/// Relies on `soroban_sdk::Env::mock_all_auths`: from now on every
/// authorization check in this environment passes.
#[verifier::external_body]
pub(crate) fn mock_all_auths(env: &soroban_sdk::Env) {
    env.mock_all_auths()
}

/// Relies on `soroban_sdk::testutils::Address::generate`: a fresh synthetic
/// address in the given environment. It panics on the environment that a
/// contract function receives, so only a test-built one is admitted.
#[verifier::external_body]
pub(crate) fn generate_address(env: &soroban_sdk::Env) -> (r: soroban_sdk::Address)
    requires
        is_test_sandbox(*env),
{
    <soroban_sdk::Address as soroban_sdk::testutils::Address>::generate(env)
}

} // verus!
