use vstd::prelude::*;

pub mod attr_grammar;
pub mod check_mode;
pub mod codegen;
pub mod expand;
pub mod grammar;
pub mod params;
pub mod symbol;
pub mod token;

verus! {

} // verus!
