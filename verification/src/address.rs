//! Account addresses, and the derivation of addresses that only a program controls.

use solana_program::pubkey::Pubkey;
use vstd::prelude::*;

verus! {

/// Width in bytes of an account address.
pub const ADDRESS_LEN: usize = 32;

/// The address of a ledger account.
#[derive(Clone, Copy, Debug)]
pub struct Address {
    pub bytes: [u8; 32],
}

impl PartialEq for Address {
    fn eq(&self, other: &Address) -> (r: bool) {
        let mut i: usize = 0;
        while i < 32
            invariant
                i <= 32,
                forall|j: int| 0 <= j < i ==> self.bytes[j] == other.bytes[j],
            decreases 32 - i,
        {
            if self.bytes[i] != other.bytes[i] {
                return false;
            }
            i += 1;
        }
        assert(self.bytes =~= other.bytes);
        true
    }
}

impl Eq for Address {

}

impl vstd::std_specs::cmp::PartialEqSpecImpl for Address {
    open spec fn obeys_eq_spec() -> bool {
        true
    }

    open spec fn eq_spec(&self, other: &Address) -> bool {
        *self == *other
    }
}

impl View for Address {
    type V = Seq<u8>;

    open spec fn view(&self) -> Seq<u8> {
        self.bytes@
    }
}

/// Whether `address` is a point of the ed25519 curve, that is, whether a private key
/// may exist for it. This names what `Pubkey::is_on_curve` returns.
pub uninterp spec fn on_curve(address: Seq<u8>) -> bool;

/// The address and bump seed that the host's search derives for `program_id` from the
/// single seed `seed`, if it finds any. This names what
/// `Pubkey::try_find_program_address` returns.
pub uninterp spec fn program_derived_address(seed: Seq<u8>, program_id: Seq<u8>) -> Option<(Seq<u8>, u8)>;

/// Calls `Pubkey::is_on_curve`. Trusted: the result is a function of the 32 bytes alone.
/// The host computes it off the ledger only; inside a deployed program it has no
/// implementation.
#[verifier::external_body]
fn pubkey_is_on_curve(address: &Address) -> (r: bool)
    ensures
        r == on_curve(address@),
{
    Pubkey::new_from_array(address.bytes).is_on_curve()
}

/// Calls `Pubkey::try_find_program_address` with `seed` as the only seed. Trusted: the
/// result is a function of the seed and the program id alone; an address that is found
/// does not lie on the curve, since the search accepts a candidate only then; and the
/// search tries the bump seeds from 255 down to 1, so that the one it returns is not 0.
#[verifier::external_body]
pub(crate) fn try_find_program_address(seed: &Address, program_id: &Address) -> (found: Option<
    (Address, u8),
>)
    ensures
        found matches Some((address, bump)) ==> program_derived_address(seed@, program_id@)
            == Some((address@, bump)) && !on_curve(address@) && bump >= 1,
        found is None ==> program_derived_address(seed@, program_id@) is None,
{
    Pubkey::try_find_program_address(&[&seed.bytes[..]], &Pubkey::new_from_array(program_id.bytes))
        .map(|(address, bump)| (Address { bytes: address.to_bytes() }, bump))
}

impl Default for Address {
    fn default() -> (address: Address)
        ensures
            address == Address::zero(),
    {
        Address { bytes: [0u8; 32] }
    }
}

impl Address {
    /// The address whose bytes are all zero.
    pub open spec fn zero() -> Address {
        Address { bytes: vstd::array::spec_array_fill_for_copy_type::<u8, 32>(0u8) }
    }

    /// The address made of `bytes`.
    pub fn new(bytes: [u8; 32]) -> (address: Address)
        ensures
            address.bytes == bytes,
    {
        Address { bytes }
    }

    /// The 32 bytes of the address.
    pub fn to_bytes(&self) -> (bytes: [u8; 32])
        ensures
            bytes == self.bytes,
    {
        self.bytes
    }

    /// The address stored in the 32 bytes of `bytes` that start at `offset`.
    pub fn from_slice(bytes: &[u8], offset: usize) -> (address: Address)
        requires
            offset + ADDRESS_LEN <= bytes.len(),
        ensures
            address@ == bytes@.subrange(offset as int, offset + ADDRESS_LEN),
    {
        let mut out = [0u8; 32];
        let mut i: usize = 0;
        while i < 32
            invariant
                i <= 32,
                offset + 32 <= bytes.len(),
                forall|j: int| 0 <= j < i ==> out[j] == bytes[offset + j],
            decreases 32 - i,
        {
            out[i] = bytes[offset + i];
            i += 1;
        }
        assert(out@ =~= bytes@.subrange(offset as int, offset + ADDRESS_LEN));
        Address { bytes: out }
    }

    /// Whether the address lies on the ed25519 curve: only such an address can be
    /// signed for with a private key.
    pub fn is_on_curve(&self) -> (r: bool)
        ensures
            r == on_curve(self@),
    {
        pubkey_is_on_curve(self)
    }
}

/// Two addresses with the same bytes are the same address.
pub proof fn lemma_address_ext(a: Address, b: Address)
    requires
        a@ == b@,
    ensures
        a == b,
{
    assert(a.bytes =~= b.bytes);
}

} // verus!
