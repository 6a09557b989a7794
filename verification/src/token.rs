//! The token service: its address, the instructions that a pool sends to it, and the
//! mint data that it defines.

use crate::address::Address;
use crate::error::ContractError;
use crate::instruction::{AccountMeta, Instruction, InstructionView};
use crate::rent;
use solana_program::program_error::ProgramError;
use solana_program::program_pack::Pack;
use solana_program::pubkey::Pubkey;
use spl_token::state::Mint;
use vstd::prelude::*;

verus! {

/// The bytes of the address of the token program,
/// `TokenkegQfeZyiNwAJbNbGKPFXCWuBvf9Ss623VQ5DA`.
pub const TOKEN_PROGRAM_ID: [u8; 32] = [
    6, 221, 246, 225, 215, 101, 161, 147, 217, 203, 225, 70, 206, 235, 121, 172,
    28, 180, 133, 237, 95, 91, 55, 145, 58, 140, 245, 133, 126, 255, 0, 169,
];

/// Width in bytes of the data of a mint.
pub const MINT_LEN: usize = 82;

/// Where in the data of a mint its number of decimals stands.
pub const MINT_DECIMALS_OFFSET: usize = 44;

/// The address of the token program.
pub open spec fn program_address() -> Address {
    Address { bytes: TOKEN_PROGRAM_ID }
}

/// The number of decimals of the mint stored in `data`, if the token service can read
/// a mint there. This names the field `decimals` of what `Mint::unpack_from_slice`
/// returns.
pub uninterp spec fn mint_decimals(data: Seq<u8>) -> Option<u8>;

/// An account named by an instruction that the instruction may write to.
pub open spec fn writable(pubkey: Address) -> AccountMeta {
    AccountMeta { pubkey, is_signer: false, is_writable: true }
}

/// An account named by an instruction that the instruction only reads.
pub open spec fn readonly(pubkey: Address) -> AccountMeta {
    AccountMeta { pubkey, is_signer: false, is_writable: false }
}

/// The instruction that asks the token service to initialize the holding account
/// `account` for the mint `mint`, with `owner` as its owner.
pub open spec fn initialize_account_instruction(
    account: Address,
    mint: Address,
    owner: Address,
) -> InstructionView {
    InstructionView {
        program_id: program_address(),
        accounts: seq![
            writable(account),
            readonly(mint),
            readonly(owner),
            readonly(rent::sysvar_address()),
        ],
        data: seq![1u8],
    }
}

/// The instruction that asks the token service to initialize the mint `mint` with
/// `decimals` decimals, `mint_authority` as the authority that may mint, and
/// `freeze_authority`, if any, as the authority that may freeze accounts.
pub open spec fn initialize_mint_instruction(
    mint: Address,
    mint_authority: Address,
    freeze_authority: Option<Address>,
    decimals: u8,
) -> InstructionView {
    InstructionView {
        program_id: program_address(),
        accounts: seq![writable(mint), readonly(rent::sysvar_address())],
        data: seq![0u8, decimals] + mint_authority@ + match freeze_authority {
            Some(key) => seq![1u8] + key@,
            None => seq![0u8],
        },
    }
}

/// Calls `spl_token::id`. Trusted: the address is the documented one.
#[verifier::external_body]
fn spl_token_id() -> (id: Address)
    ensures
        id == program_address(),
{
    Address { bytes: spl_token::id().to_bytes() }
}

/// Calls `spl_token::instruction::initialize_account`. Trusted: the call fails exactly
/// when `token_program` is not the token program; the instruction names the account as
/// writable, then the mint, the owner and the rent sysvar as read-only, none of them a
/// signer, and its payload is the tag 1.
#[verifier::external_body]
pub(crate) fn token_initialize_account(
    token_program: &Address,
    account: &Address,
    mint: &Address,
    owner: &Address,
) -> (r: Result<Instruction, ProgramError>)
    ensures
        r is Ok <==> *token_program == program_address(),
        r matches Ok(made) ==> made@ == initialize_account_instruction(*account, *mint, *owner),
{
    let made = spl_token::instruction::initialize_account(
        &Pubkey::new_from_array(token_program.bytes),
        &Pubkey::new_from_array(account.bytes),
        &Pubkey::new_from_array(mint.bytes),
        &Pubkey::new_from_array(owner.bytes),
    )?;
    let accounts = made.accounts.iter().map(|meta| AccountMeta {
        pubkey: Address { bytes: meta.pubkey.to_bytes() },
        is_signer: meta.is_signer,
        is_writable: meta.is_writable,
    });
    let program_id = Address { bytes: made.program_id.to_bytes() };
    Ok(Instruction { program_id, accounts: accounts.collect(), data: made.data })
}

/// Calls `spl_token::instruction::initialize_mint`. Trusted: the call fails exactly
/// when `token_program` is not the token program; the instruction names the mint as
/// writable and the rent sysvar as read-only, neither a signer, and its payload is the
/// tag 0, the decimals, the mint authority, and then either 0 or 1 and the freeze
/// authority.
#[verifier::external_body]
pub(crate) fn token_initialize_mint(
    token_program: &Address,
    mint: &Address,
    mint_authority: &Address,
    freeze_authority: Option<&Address>,
    decimals: u8,
) -> (r: Result<Instruction, ProgramError>)
    ensures
        r is Ok <==> *token_program == program_address(),
        r matches Ok(made) ==> made@ == initialize_mint_instruction(
            *mint,
            *mint_authority,
            match freeze_authority {
                Some(key) => Some(*key),
                None => None,
            },
            decimals,
        ),
{
    let freeze = freeze_authority.map(|key| Pubkey::new_from_array(key.bytes));
    let (program, mint) = (Pubkey::new_from_array(token_program.bytes), Pubkey::new_from_array(mint.bytes));
    let authority = Pubkey::new_from_array(mint_authority.bytes);
    let made = spl_token::instruction::initialize_mint(&program, &mint, &authority, freeze.as_ref(), decimals)?;
    let accounts = made.accounts.iter().map(|meta| AccountMeta {
        pubkey: Address { bytes: meta.pubkey.to_bytes() },
        is_signer: meta.is_signer,
        is_writable: meta.is_writable,
    });
    let program_id = Address { bytes: made.program_id.to_bytes() };
    Ok(Instruction { program_id, accounts: accounts.collect(), data: made.data })
}

/// Calls `Mint::unpack_from_slice` and picks the number of decimals. Trusted: the
/// outcome is a function of the bytes alone, and the number of decimals is the byte at
/// `MINT_DECIMALS_OFFSET`. `unpack_from_slice` takes the first `MINT_LEN` bytes without
/// a test of the length: the `requires` says that they are there.
#[verifier::external_body]
fn unpack_mint_decimals(data: &[u8]) -> (r: Result<u8, ProgramError>)
    requires
        data.len() >= MINT_LEN,
    ensures
        r matches Ok(decimals) ==> mint_decimals(data@) == Some(decimals) && decimals
            == data[MINT_DECIMALS_OFFSET as int],
        r is Err ==> mint_decimals(data@) is None,
{
    Mint::unpack_from_slice(data).map(|mint| mint.decimals)
}

/// The address of the token program.
pub fn id() -> (id: Address)
    ensures
        id == program_address(),
{
    spl_token_id()
}

/// What reading the number of decimals from the data of a mint gives: `InvalidMint`
/// where the data is shorter than a mint or the token service cannot read it.
pub open spec fn decimals_of(data: Seq<u8>) -> Result<u8, ContractError> {
    if data.len() < MINT_LEN {
        Err(ContractError::InvalidMint)
    } else {
        match mint_decimals(data) {
            Some(decimals) => Ok(decimals),
            None => Err(ContractError::InvalidMint),
        }
    }
}

/// Reads the number of decimals from the data of a mint.
pub fn read_mint_decimals(data: &[u8]) -> (r: Result<u8, ContractError>)
    ensures
        r == decimals_of(data@),
        r matches Ok(decimals) ==> decimals == data[MINT_DECIMALS_OFFSET as int],
{
    if data.len() < MINT_LEN {
        return Err(ContractError::InvalidMint);
    }
    match unpack_mint_decimals(data) {
        Ok(decimals) => Ok(decimals),
        Err(_) => Err(ContractError::InvalidMint),
    }
}

/// A call of the token service: the instruction to send, and the addresses of the
/// accounts to hand over with it, in order.
#[derive(Clone, Debug, PartialEq, Eq)]
pub struct ServiceCall {
    /// The instruction for the token program.
    pub instruction: Instruction,
    /// The accounts that the call hands to the token program.
    pub accounts: Vec<Address>,
}

/// What a [`ServiceCall`] holds.
pub struct ServiceCallView {
    pub instruction: InstructionView,
    pub accounts: Seq<Address>,
}

impl View for ServiceCall {
    type V = ServiceCallView;

    open spec fn view(&self) -> ServiceCallView {
        ServiceCallView { instruction: self.instruction@, accounts: self.accounts@ }
    }
}

/// The call that initializes the holding account `account` for the mint `mint` under
/// the owner `authority`. It hands over these three accounts and the rent account.
pub open spec fn initialize_account_call(
    account: Address,
    mint: Address,
    authority: Address,
    rent: Address,
) -> ServiceCallView {
    ServiceCallView {
        instruction: initialize_account_instruction(account, mint, authority),
        accounts: seq![account, mint, authority, rent],
    }
}

/// The call that initializes the mint `mint` with `decimals` decimals, with
/// `mint_authority` as the authority that may mint and with no authority that may
/// freeze. It hands over the mint and the rent account.
pub open spec fn initialize_mint_call(
    mint: Address,
    mint_authority: Address,
    rent: Address,
    decimals: u8,
) -> ServiceCallView {
    ServiceCallView {
        instruction: initialize_mint_instruction(mint, mint_authority, None, decimals),
        accounts: seq![mint, rent],
    }
}

} // verus!
