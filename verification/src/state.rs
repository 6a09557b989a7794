//! The pool's state record and its fixed-width encoding.

use crate::address::{lemma_address_ext, Address};
use crate::error::ContractError;
use vstd::prelude::*;

verus! {

/// Width in bytes of an encoded pool record: four addresses and the bump seed.
pub const RECORD_LEN: usize = 129;

/// The state of a pool, as stored in the pool's storage account.
///
/// A record is either the default value, all zero, which stands for a pool that is not
/// initialized, or it was written in full by the one initialization of its pool.
#[derive(Clone, Copy, Debug)]
pub struct ContractData {
    /// The program-controlled signer that may move the pool's assets.
    pub authority: Address,
    /// The asset that the pool accepts as liquidity.
    pub liquidity_mint: Address,
    /// The asset minted to represent shares of the pool.
    pub collateral_mint: Address,
    /// The account that holds the deposited liquidity.
    pub liquidity_token_account: Address,
    /// The byte that completes the derivation of `authority`.
    pub authority_bump_seed: u8,
}

impl PartialEq for ContractData {
    fn eq(&self, other: &ContractData) -> (r: bool) {
        self.authority == other.authority && self.liquidity_mint == other.liquidity_mint
            && self.collateral_mint == other.collateral_mint && self.liquidity_token_account
            == other.liquidity_token_account && self.authority_bump_seed
            == other.authority_bump_seed
    }
}

impl Eq for ContractData {

}

impl vstd::std_specs::cmp::PartialEqSpecImpl for ContractData {
    open spec fn obeys_eq_spec() -> bool {
        true
    }

    open spec fn eq_spec(&self, other: &ContractData) -> bool {
        *self == *other
    }
}

impl Default for ContractData {
    fn default() -> (record: ContractData)
        ensures
            record == ContractData::uninitialized(),
    {
        ContractData {
            authority: Address::default(),
            liquidity_mint: Address::default(),
            collateral_mint: Address::default(),
            liquidity_token_account: Address::default(),
            authority_bump_seed: 0,
        }
    }
}

impl ContractData {
    /// The record of a pool that is not initialized: every byte is zero.
    pub open spec fn uninitialized() -> ContractData {
        ContractData {
            authority: Address::zero(),
            liquidity_mint: Address::zero(),
            collateral_mint: Address::zero(),
            liquidity_token_account: Address::zero(),
            authority_bump_seed: 0,
        }
    }

    /// The encoding of the record: its four addresses in the order of the fields, then
    /// the bump seed.
    pub open spec fn encoding(self) -> Seq<u8> {
        self.authority@ + self.liquidity_mint@ + self.collateral_mint@
            + self.liquidity_token_account@ + seq![self.authority_bump_seed]
    }

    /// Decodes a record. The buffer must have exactly the width of a record; the record
    /// returned is the one that encodes to the buffer.
    pub fn try_from_slice(bytes: &[u8]) -> (r: Result<ContractData, ContractError>)
        ensures
            r is Ok <==> bytes.len() == RECORD_LEN,
            r matches Ok(record) ==> record.encoding() == bytes@,
            r matches Err(e) ==> e == ContractError::TruncatedRecord,
    {
        if bytes.len() != RECORD_LEN {
            return Err(ContractError::TruncatedRecord);
        }
        let record = ContractData {
            authority: Address::from_slice(bytes, 0),
            liquidity_mint: Address::from_slice(bytes, 32),
            collateral_mint: Address::from_slice(bytes, 64),
            liquidity_token_account: Address::from_slice(bytes, 96),
            authority_bump_seed: bytes[128],
        };
        assert(record.encoding() =~= bytes@);
        Ok(record)
    }

    /// Encodes the record into a fresh buffer.
    pub fn to_vec(&self) -> (bytes: Vec<u8>)
        ensures
            bytes@ == self.encoding(),
    {
        let mut bytes: Vec<u8> = Vec::new();
        push_address(&mut bytes, &self.authority);
        push_address(&mut bytes, &self.liquidity_mint);
        push_address(&mut bytes, &self.collateral_mint);
        push_address(&mut bytes, &self.liquidity_token_account);
        bytes.push(self.authority_bump_seed);
        assert(bytes@ =~= self.encoding());
        bytes
    }

    /// Writes the encoding of the record over the first `RECORD_LEN` bytes of `dst`.
    /// A buffer that is too short for the whole record is left as it was.
    pub fn serialize(&self, dst: &mut Vec<u8>) -> (r: Result<(), ContractError>)
        ensures
            old(dst).len() >= RECORD_LEN ==> r is Ok && final(dst)@ == self.encoding() + old(
                dst,
            )@.skip(RECORD_LEN as int),
            old(dst).len() < RECORD_LEN ==> r == Err::<(), ContractError>(
                ContractError::TruncatedRecord,
            ) && final(dst)@ == old(dst)@,
    {
        if dst.len() < RECORD_LEN {
            return Err(ContractError::TruncatedRecord);
        }
        let encoded = self.to_vec();
        proof {
            lemma_encoding_len(*self);
        }
        let mut i: usize = 0;
        while i < RECORD_LEN
            invariant
                i <= RECORD_LEN,
                encoded@ == self.encoding(),
                encoded.len() == RECORD_LEN,
                dst.len() == old(dst).len(),
                dst.len() >= RECORD_LEN,
                forall|j: int| 0 <= j < i ==> dst[j] == encoded[j],
                forall|j: int| i <= j < dst.len() ==> dst[j] == old(dst)[j],
            decreases RECORD_LEN - i,
        {
            dst.set(i, encoded[i]);
            i += 1;
        }
        assert(dst@ =~= self.encoding() + old(dst)@.skip(RECORD_LEN as int));
        Ok(())
    }
}

/// Appends the bytes of `address` to `bytes`.
fn push_address(bytes: &mut Vec<u8>, address: &Address)
    ensures
        final(bytes)@ == old(bytes)@ + address@,
{
    let mut i: usize = 0;
    while i < 32
        invariant
            i <= 32,
            bytes@ == old(bytes)@ + address@.subrange(0, i as int),
        decreases 32 - i,
    {
        bytes.push(address.bytes[i]);
        assert(address@.subrange(0, i + 1) =~= address@.subrange(0, i as int).push(address@[i as int]));
        i += 1;
    }
    assert(address@.subrange(0, 32) =~= address@);
}

/// Every record encodes to exactly `RECORD_LEN` bytes.
pub proof fn lemma_encoding_len(record: ContractData)
    ensures
        record.encoding().len() == RECORD_LEN,
{
}

/// Two records with the same encoding are the same record: a buffer decodes to at most
/// one record, so decoding what was encoded gives the record back.
pub proof fn lemma_encoding_injective(a: ContractData, b: ContractData)
    requires
        a.encoding() == b.encoding(),
    ensures
        a == b,
{
    let e = a.encoding();
    assert(a.authority@ =~= e.subrange(0, 32));
    assert(b.authority@ =~= e.subrange(0, 32));
    assert(a.liquidity_mint@ =~= e.subrange(32, 64));
    assert(b.liquidity_mint@ =~= e.subrange(32, 64));
    assert(a.collateral_mint@ =~= e.subrange(64, 96));
    assert(b.collateral_mint@ =~= e.subrange(64, 96));
    assert(a.liquidity_token_account@ =~= e.subrange(96, 128));
    assert(b.liquidity_token_account@ =~= e.subrange(96, 128));
    assert(a.authority_bump_seed == e[128]);
    assert(b.authority_bump_seed == e[128]);
    lemma_address_ext(a.authority, b.authority);
    lemma_address_ext(a.liquidity_mint, b.liquidity_mint);
    lemma_address_ext(a.collateral_mint, b.collateral_mint);
    lemma_address_ext(a.liquidity_token_account, b.liquidity_token_account);
}

/// The record of a pool that is not initialized encodes to zeros only, and it is the
/// only record that does.
pub proof fn lemma_uninitialized_is_zero(record: ContractData)
    ensures
        record == ContractData::uninitialized() <==> record.encoding() == Seq::new(
            RECORD_LEN as nat,
            |i: int| 0u8,
        ),
{
    let zero = ContractData::uninitialized();
    assert(zero.encoding() =~= Seq::new(RECORD_LEN as nat, |i: int| 0u8));
    if record.encoding() == Seq::new(RECORD_LEN as nat, |i: int| 0u8) {
        lemma_encoding_injective(record, zero);
    }
}

} // verus!
