//! The instructions of the program, and their encoding.

use crate::address::Address;
use crate::error::ContractError;
use crate::rent;
use crate::token;
use vstd::prelude::*;

verus! {

/// The instructions supported by the program. An instruction has no arguments: its
/// encoding is its one-byte tag.
#[derive(Clone, Copy, Debug, PartialEq, Eq, Structural)]
pub enum ContractInstruction {
    /// Initializes a pool.
    Init,
    /// Swaps assets. Declared, and not implemented.
    Swap,
}

impl ContractInstruction {
    /// The tag that selects the instruction.
    pub open spec fn tag(self) -> u8 {
        match self {
            ContractInstruction::Init => 0,
            ContractInstruction::Swap => 1,
        }
    }

    /// The encoding of the instruction.
    pub open spec fn encoding(self) -> Seq<u8> {
        seq![self.tag()]
    }

    /// Decodes a payload. It must consist of the tag of one instruction and nothing else.
    pub fn try_from_slice(input: &[u8]) -> (r: Result<ContractInstruction, ContractError>)
        ensures
            r is Ok <==> input@ == seq![0u8] || input@ == seq![1u8],
            r matches Ok(instruction) ==> instruction.encoding() == input@,
            r matches Err(e) ==> e == ContractError::MalformedInstruction,
    {
        if input.len() != 1 {
            return Err(ContractError::MalformedInstruction);
        }
        let tag = input[0];
        if tag == 0 {
            assert(input@ =~= seq![0u8]);
            Ok(ContractInstruction::Init)
        } else if tag == 1 {
            assert(input@ =~= seq![1u8]);
            Ok(ContractInstruction::Swap)
        } else {
            Err(ContractError::MalformedInstruction)
        }
    }

    /// Encodes the instruction.
    pub fn to_vec(&self) -> (bytes: Vec<u8>)
        ensures
            bytes@ == self.encoding(),
    {
        let tag: u8 = match self {
            ContractInstruction::Init => 0,
            ContractInstruction::Swap => 1,
        };
        let mut bytes: Vec<u8> = Vec::new();
        bytes.push(tag);
        assert(bytes@ =~= self.encoding());
        bytes
    }
}

/// An account named by an instruction, and how the instruction uses it.
#[derive(Clone, Copy, Debug, PartialEq, Eq)]
pub struct AccountMeta {
    /// The address of the account.
    pub pubkey: Address,
    /// Whether the account must sign the transaction.
    pub is_signer: bool,
    /// Whether the instruction may write to the account.
    pub is_writable: bool,
}

impl AccountMeta {
    /// An account that the instruction may write to.
    pub fn new(pubkey: Address, is_signer: bool) -> (meta: AccountMeta)
        ensures
            meta == (AccountMeta { pubkey, is_signer, is_writable: true }),
    {
        AccountMeta { pubkey, is_signer, is_writable: true }
    }

    /// An account that the instruction only reads.
    pub fn new_readonly(pubkey: Address, is_signer: bool) -> (meta: AccountMeta)
        ensures
            meta == (AccountMeta { pubkey, is_signer, is_writable: false }),
    {
        AccountMeta { pubkey, is_signer, is_writable: false }
    }
}

/// An instruction addressed to a program: the accounts it names, in order, and its
/// payload.
#[derive(Clone, Debug, PartialEq, Eq)]
pub struct Instruction {
    /// The program that executes the instruction.
    pub program_id: Address,
    /// The accounts handed to the program, in the order in which it binds them.
    pub accounts: Vec<AccountMeta>,
    /// The payload.
    pub data: Vec<u8>,
}

/// What an [`Instruction`] holds.
pub struct InstructionView {
    pub program_id: Address,
    pub accounts: Seq<AccountMeta>,
    pub data: Seq<u8>,
}

impl View for Instruction {
    type V = InstructionView;

    open spec fn view(&self) -> InstructionView {
        InstructionView { program_id: self.program_id, accounts: self.accounts@, data: self.data@ }
    }
}

/// The instruction that initializes the pool stored at `helloworld`: the seven accounts
/// in the order in which the processor binds them, and the `Init` tag as payload.
pub open spec fn initialize_instruction(
    program_id: Address,
    helloworld: Address,
    liquidity_mint: Address,
    liquidity_token_account: Address,
    collateral_mint: Address,
    authority: Address,
) -> InstructionView {
    InstructionView {
        program_id,
        accounts: seq![
            AccountMeta { pubkey: helloworld, is_signer: false, is_writable: true },
            AccountMeta { pubkey: liquidity_mint, is_signer: false, is_writable: false },
            AccountMeta { pubkey: liquidity_token_account, is_signer: false, is_writable: true },
            AccountMeta { pubkey: collateral_mint, is_signer: false, is_writable: true },
            AccountMeta { pubkey: authority, is_signer: false, is_writable: false },
            AccountMeta { pubkey: rent::sysvar_address(), is_signer: false, is_writable: false },
            AccountMeta { pubkey: token::program_address(), is_signer: false, is_writable: false },
        ],
        data: ContractInstruction::Init.encoding(),
    }
}

/// Builds the instruction that initializes a pool.
pub fn initialize(
    program_id: Address,
    helloworld: Address,
    liquidity_mint: Address,
    liquidity_token_account: Address,
    collateral_mint: Address,
    authority: Address,
) -> (instruction: Instruction)
    ensures
        instruction@ == initialize_instruction(
            program_id,
            helloworld,
            liquidity_mint,
            liquidity_token_account,
            collateral_mint,
            authority,
        ),
{
    let mut accounts: Vec<AccountMeta> = Vec::new();
    accounts.push(AccountMeta::new(helloworld, false));
    accounts.push(AccountMeta::new_readonly(liquidity_mint, false));
    accounts.push(AccountMeta::new(liquidity_token_account, false));
    accounts.push(AccountMeta::new(collateral_mint, false));
    accounts.push(AccountMeta::new_readonly(authority, false));
    accounts.push(AccountMeta::new_readonly(rent::id(), false));
    accounts.push(AccountMeta::new_readonly(token::id(), false));
    let instruction = Instruction {
        program_id,
        accounts,
        data: ContractInstruction::Init.to_vec(),
    };
    assert(instruction@.accounts =~= initialize_instruction(
        program_id,
        helloworld,
        liquidity_mint,
        liquidity_token_account,
        collateral_mint,
        authority,
    ).accounts);
    instruction
}

} // verus!
