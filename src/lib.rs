//! Token-issuance engine paying for proof-of-work solutions: reward halving,
//! difficulty retargeting, a hard supply cap and linear vesting.
use vstd::prelude::*;

pub mod constants;
pub mod errors;
pub mod keys;
pub mod hashing;
pub mod reward;
pub mod difficulty;
pub mod work;
pub mod vesting;
pub mod state;
pub mod solution;

verus! {

} // verus!
