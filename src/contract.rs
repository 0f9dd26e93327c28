//! The contract module: its single entry point.
use vstd::prelude::*;
use crate::host::{short_symbol, symbol_text};
use soroban_sdk::{Env, Symbol};

verus! {

/// The text of the symbol with which the entry point answers.
pub open spec fn greeting_text() -> Seq<char> {
    seq!['H', 'e', 'l', 'l', 'o']
}

/// The deployable contract unit.
pub struct RentContract;

impl RentContract {
    /// The entry point: answers `Hello`, whatever symbol it is called with.
    pub fn hello(_env: Env, _to: Symbol) -> (r: Symbol)
        ensures
            symbol_text(r) == greeting_text(),
    {
        proof {
            reveal_strlit("Hello");
        }
        short_symbol("Hello")
    }
}

} // verus!
