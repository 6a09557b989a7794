//! Initialization logic of a simple token pool.
//!
//! A pool lives in a storage account owned by this program. Initializing it checks the
//! accounts that the caller supplied, asks the token service for a holding account and
//! for a new collateral mint, both under an authority that only this program
//! controls, and then writes the pool's record in one step.

pub mod account;
pub mod address;
pub mod error;
pub mod instruction;
pub mod processor;
pub mod rent;
pub mod state;
pub mod token;

use crate::address::{on_curve, program_derived_address, try_find_program_address, Address};
use vstd::prelude::*;

verus! {

/// The authority of the pool stored at `pool` under the program `program_id`, and the
/// bump seed that completes its derivation, if the host's search finds any: the
/// program-derived address for the single seed `pool`.
pub open spec fn derive_authority(program_id: Address, pool: Address) -> Option<(Seq<u8>, u8)> {
    program_derived_address(pool@, program_id@)
}

/// Derives the authority of a pool and its bump seed.
///
/// The result is a function of the two addresses: the same addresses give the same
/// authority and bump seed, whenever and wherever they are asked for. The authority
/// does not lie on the curve, so that nobody holds a private key for it, and the bump
/// seed is not 0. `None` means that no bump seed gives such an address.
pub fn find_authority_bump_seed(program_id: &Address, pool: &Address) -> (found: Option<
    (Address, u8),
>)
    ensures
        found matches Some((authority, bump)) ==> derive_authority(*program_id, *pool) == Some(
            (authority@, bump),
        ) && !on_curve(authority@) && bump >= 1,
        found is None ==> derive_authority(*program_id, *pool) is None,
{
    try_find_program_address(pool, program_id)
}

} // verus!
