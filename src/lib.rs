//! Zakat on declared cash, gold, silver and debts: which nisab applies, what
//! is due, and the explanation that goes with it, all in exact integer units.
use vstd::prelude::*;

pub mod money;
pub mod nisab;
pub mod laws;
pub mod endpoint;

verus! {

} // verus!
