//! The processor: what the program decides when it is invoked, and when the token
//! service returns.
//!
//! The processor never calls the token service itself. [`process_instruction`] checks
//! the instruction and answers with the first call to make; the caller makes it and
//! hands the outcome to [`Pending::resume`], which answers with the next call, or ends
//! the invocation. The pool's storage is written once, by the last step, after every
//! check and every call has succeeded.

use crate::account::Account;
use crate::address::{lemma_address_ext, Address};
use crate::error::ContractError;
use crate::instruction::ContractInstruction;
use crate::rent::{exemption, is_exempt};
use crate::state::{lemma_encoding_injective, lemma_encoding_len, ContractData, RECORD_LEN};
use crate::token::{
    decimals_of, initialize_account_call, initialize_mint_call, read_mint_decimals,
    token_initialize_account, token_initialize_mint, ServiceCall, ServiceCallView,
};
use crate::{derive_authority, find_authority_bump_seed};
use solana_program::program_error::ProgramError;
use vstd::prelude::*;

verus! {

/// The number of accounts that an initialization binds.
pub const INIT_ACCOUNTS: usize = 7;

/// The accounts of an initialization, bound by their position in the list that the
/// caller supplied.
pub struct InitAccounts<'a> {
    /// Position 1: the pool's storage account.
    pub pool: &'a Account,
    /// Position 2: the mint of the asset that the pool accepts as liquidity.
    pub liquidity_mint: &'a Account,
    /// Position 3: the account that will hold the liquidity.
    pub liquidity_token_account: &'a Account,
    /// Position 4: the mint of the collateral.
    pub collateral_mint: &'a Account,
    /// Position 5: the authority of the pool.
    pub authority: &'a Account,
    /// Position 6: the rent account.
    pub rent: &'a Account,
    /// Position 7: the token program.
    pub token_program: &'a Account,
}

impl<'a> InitAccounts<'a> {
    /// Binds the first seven accounts of `accounts`, in order.
    pub fn bind(accounts: &'a [Account]) -> (r: Result<InitAccounts<'a>, ContractError>)
        ensures
            r is Ok <==> accounts.len() >= INIT_ACCOUNTS,
            r matches Ok(bound) ==> {
                &&& *bound.pool == accounts[0]
                &&& *bound.liquidity_mint == accounts[1]
                &&& *bound.liquidity_token_account == accounts[2]
                &&& *bound.collateral_mint == accounts[3]
                &&& *bound.authority == accounts[4]
                &&& *bound.rent == accounts[5]
                &&& *bound.token_program == accounts[6]
            },
            r matches Err(e) ==> e == ContractError::MissingAccount,
    {
        if accounts.len() < INIT_ACCOUNTS {
            return Err(ContractError::MissingAccount);
        }
        Ok(
            InitAccounts {
                pool: &accounts[0],
                liquidity_mint: &accounts[1],
                liquidity_token_account: &accounts[2],
                collateral_mint: &accounts[3],
                authority: &accounts[4],
                rent: &accounts[5],
                token_program: &accounts[6],
            },
        )
    }
}

/// The call of the token service that an initialization waits for.
#[derive(Clone, Copy, Debug, PartialEq, Eq, Structural)]
pub enum Awaiting {
    /// The initialization of the account that holds the liquidity.
    HoldingAccount,
    /// The initialization of the collateral mint.
    CollateralMint,
}

/// An initialization that has passed its checks and waits for the token service.
///
/// Only the processor makes such a value, and resuming uses it up: the record that
/// the last step writes is the one that the checks were made on. Its bump seed is the
/// one that the derivation of the authority gave, which is never 0: the record differs
/// from that of a pool that is not initialized.
#[derive(Debug, PartialEq, Eq)]
pub struct Pending {
    awaiting: Awaiting,
    record: ContractData,
}

/// What a [`Pending`] holds.
pub struct PendingView {
    /// The call that was asked for last.
    pub awaiting: Awaiting,
    /// The record that the initialization will write.
    pub record: ContractData,
}

impl View for Pending {
    type V = PendingView;

    closed spec fn view(&self) -> PendingView {
        PendingView { awaiting: self.awaiting, record: self.record }
    }
}

impl PendingView {
    /// What holds of every initialization that the processor lets wait: the bump seed
    /// of its record is not 0.
    pub open spec fn well_formed(self) -> bool {
        self.record.authority_bump_seed >= 1
    }
}

/// What the processor answers: a call of the token service to make, with the state to
/// resume from when it has returned, or the end of the invocation.
#[derive(Debug, PartialEq, Eq)]
pub enum Step {
    /// Make this call, then resume.
    Call(ServiceCall, Pending),
    /// The invocation is over, with this result.
    Done(Result<(), ContractError>),
}

/// What a [`Step`] holds.
pub enum StepView {
    Call(ServiceCallView, PendingView),
    Done(Result<(), ContractError>),
}

impl View for Step {
    type V = StepView;

    open spec fn view(&self) -> StepView {
        match self {
            Step::Call(call, pending) => StepView::Call(call@, pending@),
            Step::Done(result) => StepView::Done(*result),
        }
    }
}

/// The record that an initialization over `accounts` writes, given the bump seed of
/// the pool's authority.
pub open spec fn record_of(accounts: Seq<Account>, bump: u8) -> ContractData {
    ContractData {
        authority: accounts[4].key,
        liquidity_mint: accounts[1].key,
        collateral_mint: accounts[3].key,
        liquidity_token_account: accounts[2].key,
        authority_bump_seed: bump,
    }
}

/// What the processor answers to the instruction `input` over `accounts`.
///
/// The payload is decoded first, and only `Init` is carried out. Then the accounts are
/// bound. Then come the checks, in this order: the pool's storage belongs to the
/// program; it holds the record of a pool that is not initialized; the authority
/// account is the one derived from the pool's address. Only then is the first call of
/// the token service asked for.
pub open spec fn started(program_id: Address, accounts: Seq<Account>, input: Seq<u8>) -> StepView {
    if input != ContractInstruction::Init.encoding() && input
        != ContractInstruction::Swap.encoding() {
        StepView::Done(Err(ContractError::MalformedInstruction))
    } else if input == ContractInstruction::Swap.encoding() {
        StepView::Done(Err(ContractError::UnsupportedOperation))
    } else if accounts.len() < INIT_ACCOUNTS {
        StepView::Done(Err(ContractError::MissingAccount))
    } else if accounts[0].owner != program_id {
        StepView::Done(Err(ContractError::WrongOwner))
    } else if accounts[0].data@.len() != RECORD_LEN {
        StepView::Done(Err(ContractError::TruncatedRecord))
    } else if accounts[0].data@ != ContractData::uninitialized().encoding() {
        StepView::Done(Err(ContractError::AlreadyInitialized))
    } else {
        match derive_authority(program_id, accounts[0].key) {
            Some((authority, bump)) => if accounts[4].key@ == authority {
                StepView::Call(
                    initialize_account_call(
                        accounts[2].key,
                        accounts[1].key,
                        accounts[4].key,
                        accounts[5].key,
                    ),
                    PendingView {
                        awaiting: Awaiting::HoldingAccount,
                        record: record_of(accounts, bump),
                    },
                )
            } else {
                StepView::Done(Err(ContractError::InvalidAuthority))
            },
            None => StepView::Done(Err(ContractError::InvalidAuthority)),
        }
    }
}

/// What the processor answers when the call that `pending` waits for has returned
/// `outcome`, over the accounts as they are then.
///
/// An error of the token service ends the invocation, unchanged. After the holding
/// account, the decimals of the liquidity mint are read and the collateral mint is
/// asked for with as many. After the collateral mint, the pool's balance must exempt
/// its storage from rent, and the storage must have room for the record: then the
/// invocation ends well, and the record is written.
pub open spec fn resumed(
    accounts: Seq<Account>,
    pending: PendingView,
    outcome: Result<(), ProgramError>,
) -> StepView {
    match outcome {
        Err(e) => StepView::Done(Err(ContractError::ServiceError(e))),
        Ok(_) => if accounts.len() < INIT_ACCOUNTS {
            StepView::Done(Err(ContractError::MissingAccount))
        } else {
            match pending.awaiting {
                Awaiting::HoldingAccount => match decimals_of(accounts[1].data@) {
                    Ok(decimals) => StepView::Call(
                        initialize_mint_call(
                            pending.record.collateral_mint,
                            pending.record.authority,
                            accounts[5].key,
                            decimals,
                        ),
                        PendingView { awaiting: Awaiting::CollateralMint, record: pending.record },
                    ),
                    Err(e) => StepView::Done(Err(e)),
                },
                Awaiting::CollateralMint => match exemption(
                    accounts[5],
                    accounts[0].lamports,
                    accounts[0].data.len(),
                ) {
                    Ok(exempt) => if !exempt {
                        StepView::Done(Err(ContractError::NotRentExempt))
                    } else if accounts[0].data@.len() < RECORD_LEN {
                        StepView::Done(Err(ContractError::TruncatedRecord))
                    } else {
                        StepView::Done(Ok(()))
                    },
                    Err(e) => StepView::Done(Err(e)),
                },
            }
        },
    }
}

/// Whether `after` is `before` with `record` written over the first `RECORD_LEN` bytes
/// of the pool's storage, and nothing else changed.
pub open spec fn pool_written(before: Seq<Account>, after: Seq<Account>, record: ContractData) -> bool {
    &&& after.len() == before.len()
    &&& forall|i: int| 1 <= i < before.len() ==> after[i] == before[i]
    &&& after[0].data@ == record.encoding() + before[0].data@.skip(RECORD_LEN as int)
    &&& after[0].key == before[0].key
    &&& after[0].owner == before[0].owner
    &&& after[0].lamports == before[0].lamports
    &&& after[0].is_signer == before[0].is_signer
    &&& after[0].is_writable == before[0].is_writable
    &&& after[0].executable == before[0].executable
    &&& after[0].rent_epoch == before[0].rent_epoch
}

/// An initialization that nothing stops ends well and writes the record of its inputs.
///
/// Take accounts whose pool storage belongs to the program and holds the record of a
/// pool that is not initialized, and whose authority account is the one derived from
/// the pool's address, with bump seed `bump`. Let both calls of the token service
/// succeed, let the liquidity mint be readable when the first has returned
/// (`after_holding`), and let the pool's balance exempt its storage from rent when the
/// second has returned (`after_mint`). Then the processor asks for the holding account,
/// then for the collateral mint with the decimals of the liquidity mint, and then ends
/// well. The storage that it leaves (`written`) is the encoding of the record made of
/// the authority, the liquidity mint, the collateral mint, the holding account and the
/// bump seed, byte for byte, and that record is the only one that it decodes to.
pub proof fn lemma_initialization_writes_record(
    program_id: Address,
    input: Seq<u8>,
    arrived: Seq<Account>,
    after_holding: Seq<Account>,
    after_mint: Seq<Account>,
    written: Seq<Account>,
    bump: u8,
)
    requires
        input == ContractInstruction::Init.encoding(),
        arrived.len() >= INIT_ACCOUNTS,
        arrived[0].owner == program_id,
        arrived[0].data@ == ContractData::uninitialized().encoding(),
        derive_authority(program_id, arrived[0].key) == Some((arrived[4].key@, bump)),
        after_holding.len() >= INIT_ACCOUNTS,
        decimals_of(after_holding[1].data@) is Ok,
        after_mint.len() >= INIT_ACCOUNTS,
        after_mint[0].data.len() == RECORD_LEN,
        exemption(after_mint[5], after_mint[0].lamports, after_mint[0].data.len()) == Ok::<
            bool,
            ContractError,
        >(true),
        pool_written(after_mint, written, record_of(arrived, bump)),
    ensures
        ({
            let record = record_of(arrived, bump);
            let holding = PendingView { awaiting: Awaiting::HoldingAccount, record };
            let mint = PendingView { awaiting: Awaiting::CollateralMint, record };
            &&& started(program_id, arrived, input) == StepView::Call(
                initialize_account_call(
                    arrived[2].key,
                    arrived[1].key,
                    arrived[4].key,
                    arrived[5].key,
                ),
                holding,
            )
            &&& resumed(after_holding, holding, Ok(())) == StepView::Call(
                initialize_mint_call(
                    arrived[3].key,
                    arrived[4].key,
                    after_holding[5].key,
                    decimals_of(after_holding[1].data@)->Ok_0,
                ),
                mint,
            )
            &&& resumed(after_mint, mint, Ok(())) == StepView::Done(Ok(()))
            &&& record == (ContractData {
                authority: arrived[4].key,
                liquidity_mint: arrived[1].key,
                collateral_mint: arrived[3].key,
                liquidity_token_account: arrived[2].key,
                authority_bump_seed: bump,
            })
            &&& written[0].data@ == record.encoding()
            &&& forall|decoded: ContractData|
                decoded.encoding() == written[0].data@ ==> decoded == record
        }),
{
    let record = record_of(arrived, bump);
    lemma_encoding_len(ContractData::uninitialized());
    lemma_encoding_len(record);
    assert(ContractInstruction::Init.encoding()[0] == 0u8);
    assert(ContractInstruction::Swap.encoding()[0] == 1u8);
    assert(written[0].data@ =~= record.encoding());
    assert forall|decoded: ContractData| decoded.encoding() == written[0].data@ implies decoded
        == record by {
        lemma_encoding_injective(decoded, record);
    }
}

/// A pool is initialized once.
///
/// Take the accounts that a last step has left, with `record` written over a pool
/// storage of the width of a record, and with a bump seed that is not 0, as it is in
/// every initialization that the processor lets wait. Then the storage does not hold
/// the record of a pool that is not initialized, and an `Init` over these accounts,
/// with the storage still owned by the program, is refused as `AlreadyInitialized`.
pub proof fn lemma_written_pool_is_initialized(
    program_id: Address,
    input: Seq<u8>,
    before: Seq<Account>,
    after: Seq<Account>,
    record: ContractData,
)
    requires
        record.authority_bump_seed >= 1,
        before.len() >= INIT_ACCOUNTS,
        before[0].data.len() == RECORD_LEN,
        pool_written(before, after, record),
        input == ContractInstruction::Init.encoding(),
        after[0].owner == program_id,
    ensures
        after[0].data@ == record.encoding(),
        after[0].data@ != ContractData::uninitialized().encoding(),
        started(program_id, after, input) == StepView::Done(
            Err(ContractError::AlreadyInitialized),
        ),
{
    lemma_encoding_len(record);
    assert(after[0].data@ =~= record.encoding());
    if record.encoding() == ContractData::uninitialized().encoding() {
        lemma_encoding_injective(record, ContractData::uninitialized());
    }
    assert(ContractInstruction::Init.encoding()[0] == 0u8);
    assert(ContractInstruction::Swap.encoding()[0] == 1u8);
}

/// Builds the call that initializes the holding account `account` for the mint `mint`
/// under the owner `authority`. Building it does not fail.
pub fn spl_initialize_account(
    account: &Address,
    mint: &Address,
    authority: &Address,
    rent: &Address,
) -> (r: Result<ServiceCall, ContractError>)
    ensures
        r matches Ok(call) && call@ == initialize_account_call(*account, *mint, *authority, *rent),
{
    let token_program = crate::token::id();
    match token_initialize_account(&token_program, account, mint, authority) {
        Ok(instruction) => {
            let mut accounts: Vec<Address> = Vec::new();
            accounts.push(*account);
            accounts.push(*mint);
            accounts.push(*authority);
            accounts.push(*rent);
            let call = ServiceCall { instruction, accounts };
            assert(call@.accounts =~= seq![*account, *mint, *authority, *rent]);
            Ok(call)
        },
        Err(e) => Err(ContractError::ServiceError(e)),
    }
}

/// Builds the call that initializes the mint `mint` with `decimals` decimals, with
/// `mint_authority` as the authority that may mint and none that may freeze. Building
/// it does not fail.
pub fn spl_initialize_mint(
    mint: &Address,
    mint_authority: &Address,
    rent: &Address,
    decimals: u8,
) -> (r: Result<ServiceCall, ContractError>)
    ensures
        r matches Ok(call) && call@ == initialize_mint_call(*mint, *mint_authority, *rent, decimals),
{
    let token_program = crate::token::id();
    match token_initialize_mint(&token_program, mint, mint_authority, None, decimals) {
        Ok(instruction) => {
            let mut accounts: Vec<Address> = Vec::new();
            accounts.push(*mint);
            accounts.push(*rent);
            let call = ServiceCall { instruction, accounts };
            assert(call@.accounts =~= seq![*mint, *rent]);
            Ok(call)
        },
        Err(e) => Err(ContractError::ServiceError(e)),
    }
}

/// Processes an instruction up to the first call of the token service.
///
/// Nothing is written: an instruction that is refused here leaves every account as it
/// was, and no call of the token service was asked for.
pub fn process_instruction(program_id: &Address, accounts: &[Account], input: &[u8]) -> (step:
    Step)
    ensures
        step@ == started(*program_id, accounts@, input@),
        step@ matches StepView::Call(_, pending) ==> pending.well_formed(),
        // The swap is refused whatever the accounts hold.
        input@ == ContractInstruction::Swap.encoding() ==> step@ == StepView::Done(
            Err(ContractError::UnsupportedOperation),
        ),
        // The owner of the pool's storage is the first thing that is checked.
        input@ == ContractInstruction::Init.encoding() && accounts.len() >= INIT_ACCOUNTS
            && accounts[0].owner != *program_id ==> step@ == StepView::Done(
            Err(ContractError::WrongOwner),
        ),
        // A pool is initialized once.
        input@ == ContractInstruction::Init.encoding() && accounts.len() >= INIT_ACCOUNTS
            && accounts[0].owner == *program_id && accounts[0].data.len() == RECORD_LEN
            && accounts[0].data@ != ContractData::uninitialized().encoding() ==> step@
            == StepView::Done(Err(ContractError::AlreadyInitialized)),
        // An authority other than the derived one is refused before any call.
        input@ == ContractInstruction::Init.encoding() && accounts.len() >= INIT_ACCOUNTS
            && accounts[0].owner == *program_id && accounts[0].data@
            == ContractData::uninitialized().encoding() && !(derive_authority(
            *program_id,
            accounts[0].key,
        ) matches Some((authority, _)) && authority == accounts[4].key@) ==> step@
            == StepView::Done(Err(ContractError::InvalidAuthority)),
{
    proof {
        lemma_encoding_len(ContractData::uninitialized());
        assert(ContractInstruction::Init.encoding()[0] == 0u8);
        assert(ContractInstruction::Swap.encoding()[0] == 1u8);
    }
    let instruction = match ContractInstruction::try_from_slice(input) {
        Ok(instruction) => instruction,
        Err(e) => {
            return Step::Done(Err(e));
        },
    };
    match instruction {
        ContractInstruction::Init => {},
        ContractInstruction::Swap => {
            return Step::Done(Err(ContractError::UnsupportedOperation));
        },
    }
    let bound = match InitAccounts::bind(accounts) {
        Ok(bound) => bound,
        Err(e) => {
            return Step::Done(Err(e));
        },
    };
    if bound.pool.owner != *program_id {
        return Step::Done(Err(ContractError::WrongOwner));
    }
    let stored = match ContractData::try_from_slice(bound.pool.data.as_slice()) {
        Ok(stored) => stored,
        Err(e) => {
            return Step::Done(Err(e));
        },
    };
    proof {
        if stored.encoding() == ContractData::uninitialized().encoding() {
            lemma_encoding_injective(stored, ContractData::uninitialized());
        }
    }
    if stored != ContractData::default() {
        return Step::Done(Err(ContractError::AlreadyInitialized));
    }
    let (authority, bump) = match find_authority_bump_seed(program_id, &bound.pool.key) {
        Some(found) => found,
        None => {
            return Step::Done(Err(ContractError::InvalidAuthority));
        },
    };
    proof {
        if bound.authority.key@ == authority@ {
            lemma_address_ext(bound.authority.key, authority);
        }
    }
    if bound.authority.key != authority {
        return Step::Done(Err(ContractError::InvalidAuthority));
    }
    let call = match spl_initialize_account(
        &bound.liquidity_token_account.key,
        &bound.liquidity_mint.key,
        &bound.authority.key,
        &bound.rent.key,
    ) {
        Ok(call) => call,
        Err(e) => {
            return Step::Done(Err(e));
        },
    };
    let record = ContractData {
        authority: bound.authority.key,
        liquidity_mint: bound.liquidity_mint.key,
        collateral_mint: bound.collateral_mint.key,
        liquidity_token_account: bound.liquidity_token_account.key,
        authority_bump_seed: bump,
    };
    Step::Call(call, Pending { awaiting: Awaiting::HoldingAccount, record })
}

impl Pending {
    #[verifier::type_invariant]
    spec fn checked(self) -> bool {
        self@.well_formed()
    }

    /// The call that the initialization waits for.
    pub fn awaiting(&self) -> (awaiting: Awaiting)
        ensures
            awaiting == self@.awaiting,
    {
        self.awaiting
    }

    /// The record that the initialization will write.
    pub fn record(&self) -> (record: ContractData)
        ensures
            record == self@.record,
            record.authority_bump_seed >= 1,
    {
        proof {
            use_type_invariant(self);
        }
        self.record
    }

    /// Goes on with the initialization when the call that it waited for has returned
    /// `outcome`. `accounts` are the accounts of the instruction as they are now.
    ///
    /// Only the step that ends the invocation well writes, and it writes the record
    /// over the pool's storage; every other step leaves the accounts as they were.
    pub fn resume(self, accounts: &mut Vec<Account>, outcome: Result<(), ProgramError>) -> (step:
        Step)
        ensures
            step@ == resumed(old(accounts)@, self@, outcome),
            step@ == StepView::Done(Ok(())) ==> self@.well_formed() && pool_written(
                old(accounts)@,
                final(accounts)@,
                self@.record,
            ),
            step@ != StepView::Done(Ok(())) ==> final(accounts)@ == old(accounts)@,
            step@ matches StepView::Call(_, next) ==> next.well_formed(),
    {
        proof {
            use_type_invariant(&self);
        }
        if let Err(e) = outcome {
            return Step::Done(Err(ContractError::ServiceError(e)));
        }
        match self.awaiting {
            Awaiting::HoldingAccount => {
                let bound = match InitAccounts::bind(accounts.as_slice()) {
                    Ok(bound) => bound,
                    Err(e) => {
                        return Step::Done(Err(e));
                    },
                };
                let decimals = match read_mint_decimals(bound.liquidity_mint.data.as_slice()) {
                    Ok(decimals) => decimals,
                    Err(e) => {
                        return Step::Done(Err(e));
                    },
                };
                let call = match spl_initialize_mint(
                    &self.record.collateral_mint,
                    &self.record.authority,
                    &bound.rent.key,
                    decimals,
                ) {
                    Ok(call) => call,
                    Err(e) => {
                        return Step::Done(Err(e));
                    },
                };
                Step::Call(call, Pending { awaiting: Awaiting::CollateralMint, record: self.record })
            },
            Awaiting::CollateralMint => {
                let bound = match InitAccounts::bind(accounts.as_slice()) {
                    Ok(bound) => bound,
                    Err(e) => {
                        return Step::Done(Err(e));
                    },
                };
                let exempt = match is_exempt(bound.rent, bound.pool.lamports, bound.pool.data.len()) {
                    Ok(exempt) => exempt,
                    Err(e) => {
                        return Step::Done(Err(e));
                    },
                };
                if !exempt {
                    return Step::Done(Err(ContractError::NotRentExempt));
                }
                if bound.pool.data.len() < RECORD_LEN {
                    return Step::Done(Err(ContractError::TruncatedRecord));
                }
                match self.record.serialize(&mut accounts[0].data) {
                    Ok(()) => Step::Done(Ok(())),
                    Err(e) => Step::Done(Err(e)),
                }
            },
        }
    }
}

} // verus!
