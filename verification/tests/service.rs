use helloworld::account::Account;
use helloworld::address::Address;
use helloworld::error::ContractError;
use helloworld::instruction::{initialize, AccountMeta, ContractInstruction, Instruction};
use helloworld::processor::{spl_initialize_account, spl_initialize_mint};
use helloworld::{rent, token};
use solana_program::program_option::COption;
use solana_program::program_pack::Pack;
use solana_program::pubkey::Pubkey;
use spl_token::state::Mint;

fn address(fill: u8) -> Address {
    Address::new([fill; 32])
}

fn pubkey(address: &Address) -> Pubkey {
    Pubkey::new_from_array(address.to_bytes())
}

fn converted(made: solana_program::instruction::Instruction) -> Instruction {
    Instruction {
        program_id: Address::new(made.program_id.to_bytes()),
        accounts: made
            .accounts
            .iter()
            .map(|meta| AccountMeta {
                pubkey: Address::new(meta.pubkey.to_bytes()),
                is_signer: meta.is_signer,
                is_writable: meta.is_writable,
            })
            .collect(),
        data: made.data,
    }
}

fn rent_data(lamports_per_byte_year: u64, exemption_threshold: f64, burn_percent: u8) -> Vec<u8> {
    let mut data = Vec::new();
    data.extend_from_slice(&lamports_per_byte_year.to_le_bytes());
    data.extend_from_slice(&exemption_threshold.to_le_bytes());
    data.push(burn_percent);
    data
}

fn rent_account(data: Vec<u8>) -> Account {
    Account {
        key: rent::id(),
        owner: address(0),
        lamports: 1,
        data,
        is_signer: false,
        is_writable: false,
        executable: false,
        rent_epoch: 0,
    }
}

fn mint_data(decimals: u8) -> Vec<u8> {
    let mint = Mint {
        mint_authority: COption::Some(pubkey(&address(9))),
        supply: 1_000,
        decimals,
        is_initialized: true,
        freeze_authority: COption::None,
    };
    let mut data = vec![0u8; Mint::LEN];
    mint.pack_into_slice(&mut data);
    data
}

#[test]
fn account_meta_constructors() {
    assert_eq!(
        AccountMeta::new(address(1), false),
        AccountMeta { pubkey: address(1), is_signer: false, is_writable: true }
    );
    assert_eq!(
        AccountMeta::new(address(1), true),
        AccountMeta { pubkey: address(1), is_signer: true, is_writable: true }
    );
    assert_eq!(
        AccountMeta::new_readonly(address(2), false),
        AccountMeta { pubkey: address(2), is_signer: false, is_writable: false }
    );
    assert_eq!(
        AccountMeta::new_readonly(address(2), true),
        AccountMeta { pubkey: address(2), is_signer: true, is_writable: false }
    );
}

#[test]
fn initialize_names_seven_accounts_in_order() {
    let made = initialize(address(1), address(2), address(3), address(4), address(5), address(6));
    assert_eq!(made.program_id, address(1));
    assert_eq!(
        made.accounts,
        vec![
            AccountMeta { pubkey: address(2), is_signer: false, is_writable: true },
            AccountMeta { pubkey: address(3), is_signer: false, is_writable: false },
            AccountMeta { pubkey: address(4), is_signer: false, is_writable: true },
            AccountMeta { pubkey: address(5), is_signer: false, is_writable: true },
            AccountMeta { pubkey: address(6), is_signer: false, is_writable: false },
            AccountMeta { pubkey: rent::id(), is_signer: false, is_writable: false },
            AccountMeta { pubkey: token::id(), is_signer: false, is_writable: false },
        ]
    );
    assert_eq!(made.data, vec![0u8]);
    assert_eq!(ContractInstruction::try_from_slice(&made.data), Ok(ContractInstruction::Init));
}

#[test]
fn holding_account_call_is_the_services_instruction() {
    let call = spl_initialize_account(&address(3), &address(2), &address(5), &address(6)).unwrap();
    let expected = spl_token::instruction::initialize_account(
        &spl_token::id(),
        &pubkey(&address(3)),
        &pubkey(&address(2)),
        &pubkey(&address(5)),
    )
    .unwrap();
    assert_eq!(call.instruction, converted(expected));
    assert_eq!(call.accounts, vec![address(3), address(2), address(5), address(6)]);
}

#[test]
fn holding_account_call_layout() {
    let call = spl_initialize_account(&address(3), &address(2), &address(5), &address(6)).unwrap();
    assert_eq!(call.instruction.program_id, token::id());
    assert_eq!(call.instruction.data, vec![1u8]);
    assert_eq!(
        call.instruction.accounts,
        vec![
            AccountMeta { pubkey: address(3), is_signer: false, is_writable: true },
            AccountMeta { pubkey: address(2), is_signer: false, is_writable: false },
            AccountMeta { pubkey: address(5), is_signer: false, is_writable: false },
            AccountMeta { pubkey: rent::id(), is_signer: false, is_writable: false },
        ]
    );
}

#[test]
fn mint_call_is_the_services_instruction() {
    let call = spl_initialize_mint(&address(4), &address(5), &address(6), 6).unwrap();
    let expected = spl_token::instruction::initialize_mint(
        &spl_token::id(),
        &pubkey(&address(4)),
        &pubkey(&address(5)),
        None,
        6,
    )
    .unwrap();
    assert_eq!(call.instruction, converted(expected));
    assert_eq!(call.accounts, vec![address(4), address(6)]);
}

#[test]
fn mint_call_layout() {
    let call = spl_initialize_mint(&address(4), &address(5), &address(6), 9).unwrap();
    assert_eq!(call.instruction.program_id, token::id());
    let mut data = vec![0u8, 9u8];
    data.extend_from_slice(&[5u8; 32]);
    data.push(0);
    assert_eq!(call.instruction.data, data);
    assert_eq!(call.instruction.data.len(), 35);
    assert_eq!(
        call.instruction.accounts,
        vec![
            AccountMeta { pubkey: address(4), is_signer: false, is_writable: true },
            AccountMeta { pubkey: rent::id(), is_signer: false, is_writable: false },
        ]
    );
}

#[test]
fn mint_call_carries_every_number_of_decimals() {
    for decimals in [0u8, 1, 6, 18, 255] {
        let call = spl_initialize_mint(&address(4), &address(5), &address(6), decimals).unwrap();
        assert_eq!(call.instruction.data[0], 0);
        assert_eq!(call.instruction.data[1], decimals);
    }
}

#[test]
fn decimals_are_read_from_a_mint() {
    assert_eq!(token::read_mint_decimals(&mint_data(6)), Ok(6));
    assert_eq!(token::read_mint_decimals(&mint_data(0)), Ok(0));
    assert_eq!(token::read_mint_decimals(&mint_data(255)), Ok(255));
}

#[test]
fn decimals_stand_at_their_offset() {
    let data = mint_data(11);
    assert_eq!(token::MINT_LEN, Mint::LEN);
    assert_eq!(data.len(), 82);
    assert_eq!(data[token::MINT_DECIMALS_OFFSET], 11);
    assert_eq!(data[44], 11);
}

#[test]
fn decimals_are_read_from_longer_data() {
    let mut data = mint_data(6);
    data.extend_from_slice(&[0xaa; 10]);
    assert_eq!(token::read_mint_decimals(&data), Ok(6));
}

#[test]
fn decimals_of_short_data_are_refused() {
    let data = mint_data(6);
    assert_eq!(token::read_mint_decimals(&data[..81]), Err(ContractError::InvalidMint));
    assert_eq!(token::read_mint_decimals(&[]), Err(ContractError::InvalidMint));
}

#[test]
fn decimals_of_malformed_mint_are_refused() {
    let mut data = mint_data(6);
    data[0] = 2;
    assert_eq!(token::read_mint_decimals(&data), Err(ContractError::InvalidMint));
    let mut data = mint_data(6);
    data[45] = 2;
    assert_eq!(token::read_mint_decimals(&data), Err(ContractError::InvalidMint));
    let mut data = mint_data(6);
    data[46] = 9;
    assert_eq!(token::read_mint_decimals(&data), Err(ContractError::InvalidMint));
}

#[test]
fn decimals_of_blank_mint_are_zero() {
    assert_eq!(token::read_mint_decimals(&[0u8; 82]), Ok(0));
}

#[test]
fn exemption_at_the_minimum_balance() {
    let account = rent_account(rent_data(3480, 2.0, 50));
    // (128 + 129) bytes * 3480 lamports * 2 years
    assert_eq!(rent::is_exempt(&account, 1_788_720, 129), Ok(true));
    assert_eq!(rent::is_exempt(&account, 1_788_719, 129), Ok(false));
    assert_eq!(rent::is_exempt(&account, u64::MAX, 129), Ok(true));
    assert_eq!(rent::is_exempt(&account, 0, 129), Ok(false));
}

#[test]
fn exemption_agrees_with_host_rent() {
    let host = solana_program::rent::Rent::default();
    let account = rent_account(rent_data(
        host.lamports_per_byte_year,
        host.exemption_threshold,
        host.burn_percent,
    ));
    for len in [0usize, 1, 82, 129, 165, 10_000] {
        let minimum = host.minimum_balance(len);
        assert_eq!(rent::is_exempt(&account, minimum, len), Ok(true));
        assert_eq!(rent::is_exempt(&account, minimum - 1, len), Ok(false));
    }
}

#[test]
fn exemption_with_fractional_threshold() {
    let account = rent_account(rent_data(10, 1.5, 0));
    // (128 + 2) * 10 * 1.5
    assert_eq!(rent::is_exempt(&account, 1950, 2), Ok(true));
    assert_eq!(rent::is_exempt(&account, 1949, 2), Ok(false));
}

#[test]
fn exemption_with_free_rent() {
    let account = rent_account(rent_data(0, 2.0, 50));
    assert_eq!(rent::is_exempt(&account, 0, 129), Ok(true));
}

#[test]
fn exemption_reads_past_trailing_bytes() {
    let mut data = rent_data(3480, 2.0, 50);
    data.extend_from_slice(&[0u8; 7]);
    let account = rent_account(data);
    assert_eq!(rent::is_exempt(&account, 1_788_720, 129), Ok(true));
}

#[test]
fn exemption_refuses_another_account() {
    let mut account = rent_account(rent_data(3480, 2.0, 50));
    account.key = address(6);
    assert_eq!(rent::is_exempt(&account, u64::MAX, 129), Err(ContractError::InvalidRentSysvar));
}

#[test]
fn exemption_refuses_unreadable_parameters() {
    let account = rent_account(vec![0u8; 16]);
    assert_eq!(rent::is_exempt(&account, u64::MAX, 129), Err(ContractError::InvalidRentSysvar));
    let account = rent_account(Vec::new());
    assert_eq!(rent::is_exempt(&account, u64::MAX, 129), Err(ContractError::InvalidRentSysvar));
}

#[test]
fn exemption_is_denied_when_the_price_overflows() {
    let account = rent_account(rent_data(u64::MAX, 2.0, 50));
    assert_eq!(rent::is_exempt(&account, u64::MAX, 129), Ok(false));
    let account = rent_account(rent_data(u64::MAX / 257 + 1, 0.0, 50));
    assert_eq!(rent::is_exempt(&account, u64::MAX, 129), Ok(false));
    let account = rent_account(rent_data(u64::MAX / 257, 0.0, 50));
    assert_eq!(rent::is_exempt(&account, 0, 129), Ok(true));
}

#[test]
fn exemption_is_denied_when_the_length_overflows() {
    let account = rent_account(rent_data(0, 2.0, 50));
    assert_eq!(rent::is_exempt(&account, u64::MAX, usize::MAX), Ok(false));
}
