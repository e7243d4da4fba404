//! A time-locked escrow: boxes of native currency or tokens that can be
//! released before their deadline, or swept by the authority after it.
pub mod address;
pub mod layout;
pub mod state;
pub mod error;
pub mod instruction;
pub mod token;
pub mod processor;
pub mod laws;

use vstd::prelude::*;

verus! {

} // verus!
