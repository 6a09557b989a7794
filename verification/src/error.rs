//! The ways in which an instruction can fail.

use vstd::prelude::*;

verus! {

/// An error of the host or of the token service. The library carries such a value
/// through and never looks inside.
#[verifier::external_type_specification]
#[verifier::external_body]
pub struct ExProgramError(solana_program::program_error::ProgramError);

/// Why an instruction was refused. Every error ends the invocation at once.
#[derive(Debug, PartialEq, Eq)]
pub enum ContractError {
    /// The payload is not exactly one known opcode tag.
    MalformedInstruction,
    /// The stored bytes do not have the width of a pool record.
    TruncatedRecord,
    /// The opcode is known but has no implementation.
    UnsupportedOperation,
    /// Fewer accounts were supplied than the operation binds.
    MissingAccount,
    /// The pool's storage account is not owned by this program.
    WrongOwner,
    /// The pool's storage account already holds a record.
    AlreadyInitialized,
    /// The authority account is not the one derived from the pool's address.
    InvalidAuthority,
    /// The liquidity mint's data cannot be read.
    InvalidMint,
    /// The token service failed; its error is carried unchanged.
    ServiceError(solana_program::program_error::ProgramError),
    /// The rent account does not hold the rent parameters.
    InvalidRentSysvar,
    /// The pool's storage account holds too little to be exempt from rent.
    NotRentExempt,
}

} // verus!
