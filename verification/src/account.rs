//! Ledger accounts as the processor sees them.

use crate::address::Address;
use vstd::prelude::*;

verus! {

/// A ledger account: an address, an owner, a balance and the bytes it stores.
#[derive(Clone, Debug, PartialEq, Eq)]
pub struct Account {
    /// The address of the account.
    pub key: Address,
    /// The program that may write to the account.
    pub owner: Address,
    /// The balance of the account.
    pub lamports: u64,
    /// The bytes stored in the account.
    pub data: Vec<u8>,
    /// Whether the account signed the transaction.
    pub is_signer: bool,
    /// Whether the transaction may write to the account.
    pub is_writable: bool,
    /// Whether the account holds a program.
    pub executable: bool,
    /// The epoch at which the account next owes rent.
    pub rent_epoch: u64,
}

} // verus!
