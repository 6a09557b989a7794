//! The rent parameters of the ledger, and exemption from rent.

use crate::account::Account;
use crate::address::Address;
use crate::error::ContractError;
use solana_program::account_info::AccountInfo;
use solana_program::program_error::ProgramError;
use solana_program::pubkey::Pubkey;
use solana_program::rent::Rent;
use solana_program::sysvar::Sysvar;
use vstd::prelude::*;

verus! {

/// The bytes of the address of the rent sysvar,
/// `SysvarRent111111111111111111111111111111111`.
pub const RENT_SYSVAR_ID: [u8; 32] = [
    6, 167, 213, 23, 25, 44, 92, 81, 33, 140, 201, 76, 61, 74, 241, 127,
    88, 218, 238, 8, 155, 161, 253, 68, 227, 219, 217, 138, 0, 0, 0, 0,
];

/// The bytes that the ledger counts for an account beyond its data.
pub const ACCOUNT_STORAGE_OVERHEAD: u64 = 128;

/// The address of the rent sysvar.
pub open spec fn sysvar_address() -> Address {
    Address { bytes: RENT_SYSVAR_ID }
}

/// The price of a byte for a year that the rent account with address `key` and
/// contents `data` holds, if it is the rent sysvar and its contents can be read. This
/// names the field `lamports_per_byte_year` of what `Rent::from_account_info` returns.
pub uninterp spec fn rent_rate(key: Seq<u8>, data: Seq<u8>) -> Option<u64>;

/// Whether, by the rent parameters stored in `data`, the balance `balance` exempts an
/// account of `data_len` bytes from rent. This names what `Rent::is_exempt` returns.
pub uninterp spec fn rent_exempt(data: Seq<u8>, balance: u64, data_len: usize) -> bool;

/// Calls `solana_program::sysvar::rent::id`. Trusted: the address is the documented one.
#[verifier::external_body]
fn sysvar_rent_id() -> (id: Address)
    ensures
        id == sysvar_address(),
{
    Address { bytes: solana_program::sysvar::rent::id().to_bytes() }
}

/// Calls `Rent::from_account_info` on `account` and picks the price of a byte for a
/// year. Trusted: the outcome is a function of the account's address and contents
/// alone, and an account with another address than the rent sysvar's is refused.
#[verifier::external_body]
fn rent_lamports_per_byte_year(account: &Account) -> (r: Result<u64, ProgramError>)
    ensures
        r matches Ok(rate) ==> rent_rate(account.key@, account.data@) == Some(rate)
            && account.key == sysvar_address(),
        r is Err ==> rent_rate(account.key@, account.data@) is None,
{
    let key = Pubkey::new_from_array(account.key.bytes);
    let owner = Pubkey::new_from_array(account.owner.bytes);
    let (mut lamports, mut data) = (account.lamports, account.data.clone());
    let info = AccountInfo::new(
        &key,
        account.is_signer,
        account.is_writable,
        &mut lamports,
        &mut data,
        &owner,
        account.executable,
        account.rent_epoch,
    );
    Rent::from_account_info(&info).map(|rent| rent.lamports_per_byte_year)
}

/// Calls `Rent::from_account_info` on `account` and `Rent::is_exempt` on what it
/// returns. Trusted: the rent parameters are read on the same accounts as by
/// `rent_lamports_per_byte_year`, and the answer is a function of the account's
/// contents, the balance and the length alone. `is_exempt` multiplies the length plus
/// the overhead by the price in `u64`: the `requires` keeps that product in range.
#[verifier::external_body]
fn rent_is_exempt(account: &Account, balance: u64, data_len: usize) -> (r: Result<
    bool,
    ProgramError,
>)
    requires
        rent_rate(account.key@, account.data@) matches Some(rate) ==> (ACCOUNT_STORAGE_OVERHEAD
            + data_len) * rate <= u64::MAX && ACCOUNT_STORAGE_OVERHEAD + data_len <= u64::MAX,
    ensures
        r is Ok <==> rent_rate(account.key@, account.data@) is Some,
        r matches Ok(exempt) ==> exempt == rent_exempt(account.data@, balance, data_len),
{
    let key = Pubkey::new_from_array(account.key.bytes);
    let owner = Pubkey::new_from_array(account.owner.bytes);
    let (mut lamports, mut data) = (account.lamports, account.data.clone());
    let info = AccountInfo::new(
        &key,
        account.is_signer,
        account.is_writable,
        &mut lamports,
        &mut data,
        &owner,
        account.executable,
        account.rent_epoch,
    );
    Rent::from_account_info(&info).map(|rent| rent.is_exempt(balance, data_len))
}

/// Whether the rent account says that `balance` exempts an account of `data_len`
/// bytes from rent: `InvalidRentSysvar` where the account does not hold the rent
/// parameters; `false` where the account's bytes with the overhead, or their price
/// for a year, do not fit in a `u64`, so that no balance could be measured against it;
/// otherwise the ledger's own answer.
pub open spec fn exemption(rent_account: Account, balance: u64, data_len: usize) -> Result<
    bool,
    ContractError,
> {
    match rent_rate(rent_account.key@, rent_account.data@) {
        None => Err(ContractError::InvalidRentSysvar),
        Some(rate) => {
            let bytes = ACCOUNT_STORAGE_OVERHEAD + data_len;
            if bytes > u64::MAX || bytes * rate > u64::MAX {
                Ok(false)
            } else {
                Ok(rent_exempt(rent_account.data@, balance, data_len))
            }
        },
    }
}

/// The address of the rent sysvar.
pub fn id() -> (id: Address)
    ensures
        id == sysvar_address(),
{
    sysvar_rent_id()
}

/// Asks the rent account whether `balance` exempts an account of `data_len` bytes from
/// rent. Only the rent sysvar is given an answer.
pub fn is_exempt(rent_account: &Account, balance: u64, data_len: usize) -> (r: Result<
    bool,
    ContractError,
>)
    ensures
        r == exemption(*rent_account, balance, data_len),
        r is Ok ==> rent_account.key == sysvar_address(),
{
    let rate = match rent_lamports_per_byte_year(rent_account) {
        Ok(rate) => rate,
        Err(_) => {
            return Err(ContractError::InvalidRentSysvar);
        },
    };
    let bytes = match (data_len as u64).checked_add(ACCOUNT_STORAGE_OVERHEAD) {
        Some(bytes) => bytes,
        None => {
            return Ok(false);
        },
    };
    if bytes.checked_mul(rate).is_none() {
        return Ok(false);
    }
    match rent_is_exempt(rent_account, balance, data_len) {
        Ok(exempt) => Ok(exempt),
        Err(_) => Err(ContractError::InvalidRentSysvar),
    }
}

} // verus!
