use helloworld::address::Address;
use helloworld::error::ContractError;
use helloworld::instruction::ContractInstruction;
use helloworld::state::{ContractData, RECORD_LEN};

fn address(fill: u8) -> Address {
    let mut bytes = [fill; 32];
    bytes[0] = fill.wrapping_add(1);
    bytes[31] = fill.wrapping_add(2);
    Address::new(bytes)
}

fn sample() -> ContractData {
    ContractData {
        authority: address(10),
        liquidity_mint: address(20),
        collateral_mint: address(30),
        liquidity_token_account: address(40),
        authority_bump_seed: 254,
    }
}

#[test]
fn instruction_tags_decode() {
    assert_eq!(ContractInstruction::try_from_slice(&[0]), Ok(ContractInstruction::Init));
    assert_eq!(ContractInstruction::try_from_slice(&[1]), Ok(ContractInstruction::Swap));
}

#[test]
fn instruction_rejects_empty_payload() {
    assert_eq!(
        ContractInstruction::try_from_slice(&[]),
        Err(ContractError::MalformedInstruction)
    );
}

#[test]
fn instruction_rejects_unknown_tag() {
    for tag in 2..=255u8 {
        assert_eq!(
            ContractInstruction::try_from_slice(&[tag]),
            Err(ContractError::MalformedInstruction)
        );
    }
}

#[test]
fn instruction_rejects_trailing_bytes() {
    assert_eq!(
        ContractInstruction::try_from_slice(&[0, 0]),
        Err(ContractError::MalformedInstruction)
    );
    assert_eq!(
        ContractInstruction::try_from_slice(&[1, 7, 7]),
        Err(ContractError::MalformedInstruction)
    );
}

#[test]
fn instruction_encodes_to_its_tag() {
    assert_eq!(ContractInstruction::Init.to_vec(), vec![0u8]);
    assert_eq!(ContractInstruction::Swap.to_vec(), vec![1u8]);
}

#[test]
fn instruction_round_trip() {
    for instruction in [ContractInstruction::Init, ContractInstruction::Swap] {
        let bytes = instruction.to_vec();
        assert_eq!(ContractInstruction::try_from_slice(&bytes), Ok(instruction));
    }
}

#[test]
fn instruction_matches_borsh_tuple_tag() {
    assert_eq!(ContractInstruction::Init.to_vec(), borsh::to_vec(&0u8).unwrap());
    assert_eq!(ContractInstruction::Swap.to_vec(), borsh::to_vec(&1u8).unwrap());
}

#[test]
fn record_has_fixed_width() {
    assert_eq!(RECORD_LEN, 129);
    assert_eq!(sample().to_vec().len(), 129);
    assert_eq!(ContractData::default().to_vec().len(), 129);
}

#[test]
fn record_layout_is_fields_in_order() {
    let record = sample();
    let bytes = record.to_vec();
    assert_eq!(&bytes[0..32], &record.authority.to_bytes()[..]);
    assert_eq!(&bytes[32..64], &record.liquidity_mint.to_bytes()[..]);
    assert_eq!(&bytes[64..96], &record.collateral_mint.to_bytes()[..]);
    assert_eq!(&bytes[96..128], &record.liquidity_token_account.to_bytes()[..]);
    assert_eq!(bytes[128], 254);
    assert_eq!(bytes[0], 11);
    assert_eq!(bytes[1], 10);
    assert_eq!(bytes[31], 12);
    assert_eq!(bytes[32], 21);
    assert_eq!(bytes[127], 42);
}

#[test]
fn record_matches_borsh_layout() {
    let record = sample();
    let expected = borsh::to_vec(&(
        record.authority.to_bytes(),
        record.liquidity_mint.to_bytes(),
        record.collateral_mint.to_bytes(),
        record.liquidity_token_account.to_bytes(),
        record.authority_bump_seed,
    ))
    .unwrap();
    assert_eq!(record.to_vec(), expected);
}

#[test]
fn record_round_trip() {
    let record = sample();
    let bytes = record.to_vec();
    let decoded = ContractData::try_from_slice(&bytes).unwrap();
    assert_eq!(decoded, record);
    assert_eq!(decoded.to_vec(), bytes);
}

#[test]
fn record_decodes_every_buffer_of_its_width() {
    let bytes: Vec<u8> = (0..129u32).map(|i| (i * 7 % 256) as u8).collect();
    let decoded = ContractData::try_from_slice(&bytes).unwrap();
    assert_eq!(decoded.authority_bump_seed, bytes[128]);
    assert_eq!(&decoded.collateral_mint.to_bytes()[..], &bytes[64..96]);
    assert_eq!(decoded.to_vec(), bytes);
}

#[test]
fn record_of_zeros_is_default() {
    let decoded = ContractData::try_from_slice(&[0u8; 129]).unwrap();
    assert_eq!(decoded, ContractData::default());
    assert_eq!(ContractData::default().to_vec(), vec![0u8; 129]);
    assert_eq!(ContractData::default().authority, Address::new([0; 32]));
    assert_eq!(ContractData::default().authority_bump_seed, 0);
}

#[test]
fn record_rejects_short_buffer() {
    assert_eq!(ContractData::try_from_slice(&[0u8; 128]), Err(ContractError::TruncatedRecord));
    assert_eq!(ContractData::try_from_slice(&[]), Err(ContractError::TruncatedRecord));
}

#[test]
fn record_rejects_long_buffer() {
    assert_eq!(ContractData::try_from_slice(&[0u8; 130]), Err(ContractError::TruncatedRecord));
}

#[test]
fn record_differs_from_default_by_one_byte() {
    let mut bytes = vec![0u8; 129];
    bytes[128] = 1;
    assert_ne!(ContractData::try_from_slice(&bytes).unwrap(), ContractData::default());
    let mut bytes = vec![0u8; 129];
    bytes[70] = 1;
    assert_ne!(ContractData::try_from_slice(&bytes).unwrap(), ContractData::default());
}

#[test]
fn serialize_overwrites_storage_in_full() {
    let record = sample();
    let mut storage = vec![0xffu8; 129];
    assert_eq!(record.serialize(&mut storage), Ok(()));
    assert_eq!(storage, record.to_vec());
}

#[test]
fn serialize_keeps_bytes_behind_the_record() {
    let record = sample();
    let mut storage = vec![0xeeu8; 140];
    assert_eq!(record.serialize(&mut storage), Ok(()));
    assert_eq!(&storage[..129], &record.to_vec()[..]);
    assert_eq!(&storage[129..], &[0xeeu8; 11][..]);
}

#[test]
fn serialize_leaves_short_storage_untouched() {
    let record = sample();
    let mut storage = vec![0x55u8; 128];
    assert_eq!(record.serialize(&mut storage), Err(ContractError::TruncatedRecord));
    assert_eq!(storage, vec![0x55u8; 128]);
}

#[test]
fn address_equality_is_by_bytes() {
    let mut bytes = [3u8; 32];
    assert_eq!(Address::new(bytes), Address::new([3u8; 32]));
    bytes[31] = 4;
    assert_ne!(Address::new(bytes), Address::new([3u8; 32]));
    assert_eq!(Address::new(bytes).to_bytes(), bytes);
    assert_eq!(Address::default(), Address::new([0u8; 32]));
}

#[test]
fn address_from_slice_reads_at_offset() {
    let bytes: Vec<u8> = (0..40u8).collect();
    let read = Address::from_slice(&bytes, 5);
    assert_eq!(&read.to_bytes()[..], &bytes[5..37]);
}

type Fields = ([u8; 32], [u8; 32], [u8; 32], [u8; 32], u8);

#[test]
fn record_decodes_as_borsh_does() {
    let bytes: Vec<u8> = (0..129u32).map(|i| (i * 13 % 251) as u8).collect();
    let decoded = ContractData::try_from_slice(&bytes).unwrap();
    let (authority, liquidity_mint, collateral_mint, liquidity_token_account, bump): Fields =
        borsh::from_slice(&bytes).unwrap();
    assert_eq!(decoded.authority.to_bytes(), authority);
    assert_eq!(decoded.liquidity_mint.to_bytes(), liquidity_mint);
    assert_eq!(decoded.collateral_mint.to_bytes(), collateral_mint);
    assert_eq!(decoded.liquidity_token_account.to_bytes(), liquidity_token_account);
    assert_eq!(decoded.authority_bump_seed, bump);
}

#[test]
fn record_is_refused_where_borsh_refuses() {
    for len in [0usize, 1, 128, 130, 258] {
        let bytes = vec![0u8; len];
        assert!(borsh::from_slice::<Fields>(&bytes).is_err());
        assert_eq!(ContractData::try_from_slice(&bytes), Err(ContractError::TruncatedRecord));
    }
}
