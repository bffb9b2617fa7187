//! Elements of the Stark field, contract addresses, and what is computed of them elsewhere.
use blockifier::fee::fee_utils::get_address_balance_keys;
use num_traits::ToPrimitive;
use starknet_types_core::felt::Felt as StarkFelt;
use vstd::arithmetic::power2::{lemma2_to64, lemma2_to64_rest, lemma_pow2_adds, pow2};
use vstd::prelude::*;

use crate::text::hexadecimal;

verus! {

/// Two to the 128th power: what one unit of a high half is worth.
pub open spec fn limb_base() -> nat {
    0x1_0000_0000_0000_0000_0000_0000_0000_0000nat
}

/// The order of the Stark field.
pub open spec fn stark_prime() -> nat {
    0x800000000000011000000000000000000000000000000000000000000000001nat
}

/// The bound below which a field element can be a contract address or a storage key.
pub open spec fn address_bound() -> nat {
    0x800000000000000000000000000000000000000000000000000000000000000nat
}

/// The high half of the order of the Stark field; its low half is one.
const PRIME_HIGH: u128 = 0x8000000000000110000000000000000;

/// The high half of the bound on contract addresses; its low half is zero.
const ADDRESS_BOUND_HIGH: u128 = 0x8000000000000000000000000000000;

/// An element of the Stark field, held as the two halves of its canonical representative.
#[derive(Clone, Copy, Debug, PartialEq, Eq, Structural)]
pub struct Felt {
    high: u128,
    low: u128,
}

impl View for Felt {
    type V = nat;

    closed spec fn view(&self) -> nat {
        (self.high * limb_base() + self.low) as nat
    }
}

impl Felt {
    /// Every element is below the order of the field.
    #[verifier::type_invariant]
    spec fn canonical(self) -> bool {
        self@ < stark_prime()
    }

    /// The element whose representative has these halves; `None` outside the field.
    pub fn from_parts(high: u128, low: u128) -> (res: Option<Felt>)
        ensures
            res is Some <==> high * limb_base() + low < stark_prime(),
            res matches Some(felt) ==> felt@ == high * limb_base() + low,
    {
        if high < PRIME_HIGH || (high == PRIME_HIGH && low == 0) {
            Some(Felt { high, low })
        } else {
            None
        }
    }

    /// The zero of the field.
    pub fn zero() -> (res: Felt)
        ensures
            res@ == 0,
    {
        Felt { high: 0, low: 0 }
    }

    /// The upper 128 bits of the representative.
    pub fn high(&self) -> (res: u128)
        ensures
            res == self@ / limb_base(),
    {
        self.high
    }

    /// The lower 128 bits of the representative.
    pub fn low(&self) -> (res: u128)
        ensures
            res == self@ % limb_base(),
    {
        self.low
    }

    /// The element that stands for `value`.
    pub fn from_u128(value: u128) -> (res: Felt)
        ensures
            res@ == value,
    {
        felt_from_u128(value)
    }
}

/// Elements are equal exactly when their representatives are.
pub broadcast proof fn felt_determined_by_view(a: Felt, b: Felt)
    ensures
        #![trigger a@, b@]
        a == b <==> a@ == b@,
{
}

/// The representatives of `felts`.
pub open spec fn values(felts: Seq<Felt>) -> Seq<nat> {
    felts.map_values(|felt: Felt| felt@)
}

/// `Felt::from(u128)` of `starknet_types_core`: the element whose representative is `value`.
#[verifier::external_body]
fn felt_from_u128(value: u128) -> (res: Felt)
    ensures
        res@ == value,
{
    let bytes = StarkFelt::from(value).to_bytes_be();
    Felt {
        high: u128::from_be_bytes(*bytes.first_chunk().unwrap()),
        low: u128::from_be_bytes(*bytes.last_chunk().unwrap()),
    }
}

/// `ToPrimitive::to_u128` of `num_traits`, as `starknet_types_core` implements it for its field
/// elements: the representative where it fits 128 bits, `None` otherwise.
#[verifier::external_body]
pub(crate) fn felt_to_u128(value: &Felt) -> (res: Option<u128>)
    ensures
        res == (if value@ <= u128::MAX {
            Some(value@ as u128)
        } else {
            None
        }),
{
    let bytes = [value.high.to_be_bytes(), value.low.to_be_bytes()].concat();
    StarkFelt::from_bytes_be_slice(&bytes).to_u128()
}

/// `LowerHex` of `starknet_types_core`'s field elements, in its alternate form `{:#x}`: the
/// representative in lower-case hexadecimal, prefixed and without leading zeros.
#[verifier::external_body]
pub(crate) fn felt_hex(value: &Felt) -> (res: String)
    ensures
        res@ == hexadecimal(value@),
{
    let bytes = [value.high.to_be_bytes(), value.low.to_be_bytes()].concat();
    format!("{:#x}", StarkFelt::from_bytes_be_slice(&bytes))
}

/// The address of a contract.
#[derive(Clone, Copy, Debug, PartialEq, Eq, Structural)]
pub struct ContractAddress {
    key: Felt,
}

impl View for ContractAddress {
    type V = nat;

    closed spec fn view(&self) -> nat {
        self.key@
    }
}

impl ContractAddress {
    /// Every address is below the bound on addresses.
    #[verifier::type_invariant]
    spec fn in_range(self) -> bool {
        self@ < address_bound()
    }

    /// The address with the given key; `None` for a key that no contract can have.
    pub fn try_from_felt(key: Felt) -> (res: Option<ContractAddress>)
        ensures
            res is Some <==> key@ < address_bound(),
            res matches Some(address) ==> address@ == key@,
    {
        if key.high < ADDRESS_BOUND_HIGH {
            Some(ContractAddress { key })
        } else {
            None
        }
    }

    /// The key of the address as a field element.
    pub fn key(&self) -> (res: Felt)
        ensures
            res@ == self@,
    {
        self.key
    }
}

/// Addresses are equal exactly when their keys are.
pub proof fn law_address_is_its_key(a: ContractAddress, b: ContractAddress)
    ensures
        a == b <==> a@ == b@,
{
    felt_determined_by_view(a.key, b.key);
}

/// `Debug` of `starknet_api`'s contract addresses: two nested tuple structs around the key in
/// lower-case hexadecimal.
#[verifier::external_body]
pub(crate) fn contract_address_debug(address: &ContractAddress) -> (res: String)
    ensures
        res@ == "ContractAddress(PatriciaKey("@ + hexadecimal(address@) + "))"@,
{
    let bytes = [address.key.high.to_be_bytes(), address.key.low.to_be_bytes()].concat();
    format!("{:?}", starknet_api::core::ContractAddress::try_from(StarkFelt::from_bytes_be_slice(&bytes)).unwrap())
}

/// The selector that `starknet_api` derives from an entry point's or an event's name.
pub uninterp spec fn entry_point_selector(name: Seq<char>) -> nat;

/// `selector_from_name` of `starknet_api`. What the selector of a name is, is left to the name
/// `entry_point_selector`: for all but two reserved names it is a truncated Keccak hash.
#[verifier::external_body]
pub(crate) fn selector_from_name(name: &str) -> (res: Felt)
    ensures
        res@ == entry_point_selector(name@),
{
    let bytes = starknet_api::abi::abi_utils::selector_from_name(name).0.to_bytes_be();
    Felt {
        high: u128::from_be_bytes(*bytes.first_chunk().unwrap()),
        low: u128::from_be_bytes(*bytes.last_chunk().unwrap()),
    }
}

/// The constant `TRANSFER_EVENT_NAME` of `starknet_api`.
#[verifier::external_body]
pub(crate) fn transfer_event_name() -> (res: &'static str)
    ensures
        res@ == "Transfer"@,
{
    starknet_api::transaction::constants::TRANSFER_EVENT_NAME
}

/// The selector of transfer events.
pub open spec fn transfer_selector() -> nat {
    entry_point_selector("Transfer"@)
}

/// The storage key, inside a fee token, of the low half of an owner's balance.
pub uninterp spec fn fee_token_balance_key(owner: nat) -> nat;

/// `get_address_balance_keys` of `blockifier`: the storage keys of the two halves of the owner's
/// balance, low half first. The high half is stored right after the low half; where that is, is
/// left to the name `fee_token_balance_key`: it is a Pedersen hash of the owner's address.
#[verifier::external_body]
pub(crate) fn address_balance_keys(owner: &ContractAddress) -> (res: (Felt, Felt))
    ensures
        res.0@ == fee_token_balance_key(owner@),
        res.1@ == fee_token_balance_key(owner@) + 1,
{
    let bytes = [owner.key.high.to_be_bytes(), owner.key.low.to_be_bytes()].concat();
    let address = starknet_api::core::ContractAddress::try_from(StarkFelt::from_bytes_be_slice(&bytes)).unwrap();
    let keys = get_address_balance_keys(address);
    let (low, high) = (keys.0.0.key().to_bytes_be(), keys.1.0.key().to_bytes_be());
    (
        Felt {
            high: u128::from_be_bytes(*low.first_chunk().unwrap()),
            low: u128::from_be_bytes(*low.last_chunk().unwrap()),
        },
        Felt {
            high: u128::from_be_bytes(*high.first_chunk().unwrap()),
            low: u128::from_be_bytes(*high.last_chunk().unwrap()),
        },
    )
}

/// Half a number has 128 bits, the field has order 2^251 + 17 * 2^192 + 1, and addresses have 251
/// bits.
pub proof fn law_bounds_are_powers_of_two()
    ensures
        limb_base() == u128::MAX + 1,
        limb_base() == pow2(128),
        stark_prime() == pow2(251) + 17 * pow2(192) + 1,
        address_bound() == pow2(251),
{
    lemma2_to64();
    lemma2_to64_rest();
    lemma_pow2_adds(64, 64);
    lemma_pow2_adds(128, 64);
    lemma_pow2_adds(192, 59);
    assert(pow2(59) == 0x800000000000000);
}

/// Elements are listed with their representatives, one for one.
pub proof fn law_values_are_kept(felts: Seq<Felt>)
    ensures
        values(felts).len() == felts.len(),
        forall|i: int| 0 <= i < felts.len() ==> #[trigger] values(felts)[i] == felts[i]@,
{
}

/// Transfer events have the selector of the name that is spelled `Transfer`.
pub proof fn law_transfer_selector_is_of_this_name()
    ensures
        transfer_selector() == entry_point_selector(
            seq!['T', 'r', 'a', 'n', 's', 'f', 'e', 'r'],
        ),
{
    reveal_strlit("Transfer");
    assert("Transfer"@ =~= seq!['T', 'r', 'a', 'n', 's', 'f', 'e', 'r']);
}

} // verus!
