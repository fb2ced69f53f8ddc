use vstd::prelude::*;

use crate::contract::{read_amount, value_or_zero, StakeableToken};
use crate::key::{Key, KeyKind};
use crate::types::{minus, plus, StakeError};
use crate::u256::{u256_max, U256};

verus! {

/// The lowercase hexadecimal digit of a number below sixteen, in ASCII.
pub open spec fn spec_hex_digit(n: nat) -> u8 {
    if n < 10 {
        (48 + n) as u8
    } else {
        (87 + n) as u8
    }
}

/// Bytes in lowercase hexadecimal, two digits each, in ASCII.
pub open spec fn spec_hex(bytes: Seq<u8>) -> Seq<u8>
    decreases bytes.len(),
{
    if bytes.len() == 0 {
        Seq::empty()
    } else {
        seq![spec_hex_digit((bytes[0] / 16) as nat), spec_hex_digit((bytes[0] % 16) as nat)]
            + spec_hex(bytes.drop_first())
    }
}

/// A number in decimal, without leading zeros, in ASCII.
pub open spec fn spec_decimal(n: nat) -> Seq<u8>
    decreases n,
{
    if n < 10 {
        seq![(48 + n) as u8]
    } else {
        spec_decimal(n / 10).push((48 + n % 10) as u8)
    }
}

/// A key as `casper_types::Key` displays it, in ASCII: `Key::Account(..)` or
/// `Key::Hash(..)` around the hexadecimal of its hash.
pub open spec fn spec_key_text(key: Key) -> Seq<u8> {
    let head: Seq<u8> = match key.kind {
        KeyKind::Account => seq![75u8, 101, 121, 58, 58, 65, 99, 99, 111, 117, 110, 116, 40],
        KeyKind::Hash => seq![75u8, 101, 121, 58, 58, 72, 97, 115, 104, 40],
    };
    head + spec_hex(key.addr@) + seq![41u8]
}

/// The text `"{key}{count}{tag}"` that an id is hashed from, as bytes: the key
/// as displayed, then the count and the tag in decimal.
#[verifier::opaque]
pub open spec fn spec_id_seed(key: Key, count: nat, tag: u8) -> Seq<u8> {
    spec_key_text(key) + spec_decimal(count) + spec_decimal(tag as nat)
}

/// The Keccak-256 digest of some bytes.
pub uninterp spec fn spec_keccak256(data: Seq<u8>) -> Seq<u8>;

/// Formats the text an id is hashed from, through `casper_types::Key`'s and
/// `casper_types::U256`'s `Display`: the key as `Key::Account(<hex>)` or
/// `Key::Hash(<hex>)`, then the count and the tag in decimal.
#[verifier::external_body]
fn id_seed(key: &Key, count: &U256, tag: u8) -> (r: Vec<u8>)
    ensures
        r@ == spec_id_seed(*key, count@, tag),
{
    let k = match key.kind {
        KeyKind::Account => casper_types::Key::Account(
            casper_types::account::AccountHash::new(key.addr),
        ),
        KeyKind::Hash => casper_types::Key::Hash(key.addr),
    };
    let n = casper_types::U256([count.w0, count.w1, count.w2, count.w3]);
    format!("{}{}{}", k, n, tag).into_bytes()
}

/// `renvm_sig::keccak256`: the 32-byte Keccak-256 digest, named, not stated.
#[verifier::external_body]
fn keccak256(data: &Vec<u8>) -> (r: [u8; 32])
    ensures
        r@ == spec_keccak256(data@),
{
    renvm_sig::keccak256(data.as_slice())
}

/// The id made of a 32-byte digest: its bytes taken in pairs, each pair
/// little-endian, as sixteen numbers.
pub open spec fn spec_id_of_digest(h: Seq<u8>) -> Seq<u32> {
    Seq::new(16, |i: int| ((h[2 * i] as int) + (h[2 * i + 1] as int) * 256) as u32)
}

/// The id of the `count`-th record of a key under a tag.
pub open spec fn spec_generate_id(key: Key, count: nat, tag: u8) -> Seq<u32> {
    spec_id_of_digest(spec_keccak256(spec_id_seed(key, count, tag)))
}

/// The id of the `count`-th record of a key under a tag: the Keccak-256
/// digest of `"{key}{count}{tag}"`, as sixteen little-endian 16-bit numbers.
pub fn generate_id(key: &Key, count: U256, tag: u8) -> (r: Vec<u32>)
    ensures
        r@ == spec_generate_id(*key, count@, tag),
{
    let seed = id_seed(key, &count, tag);
    let h = keccak256(&seed);
    let mut id: Vec<u32> = Vec::new();
    let mut i: usize = 0;
    while i < 16
        invariant
            0 <= i <= 16,
            h@ == spec_keccak256(seed@),
            h@.len() == 32,
            id@.len() == i,
            forall|j: int| 0 <= j < i ==> id@[j] == ((h@[2 * j] as int) + (h@[2 * j + 1] as int) * 256) as u32,
        decreases 16 - i,
    {
        let lo: u32 = h[2 * i] as u32;
        let hi: u32 = h[2 * i + 1] as u32;
        id.push(lo + hi * 256);
        i = i + 1;
    }
    assert(id@ =~= spec_id_of_digest(h@));
    id
}

/// A count after one more record of `k` was counted.
pub open spec fn counted(old_m: Map<Key, U256>, new_m: Map<Key, U256>, k: Key) -> bool {
    &&& new_m == old_m.insert(k, new_m[k])
    &&& new_m[k]@ == value_or_zero(old_m, k) + 1
}

/// Counts one more record of `k`; refused, with no change, past 2^256 - 1.
fn increase_count(counts: &mut crate::dict::Dict<Key, U256>, k: &Key) -> (r: Result<(), StakeError>)
    ensures
        r is Ok <==> value_or_zero(old(counts)@, *k) + 1 <= u256_max(),
        r is Err ==> *final(counts) == *old(counts),
        r is Ok ==> counted(old(counts)@, final(counts)@, *k),
{
    let v = plus(read_amount(counts, k), U256::from_u64(1))?;
    counts.set(*k, v);
    Ok(())
}

impl StakeableToken {
    /// Counts one more stake of `staker`; refused, with no change, past 2^256 - 1.
    pub fn increase_stake_count(&mut self, staker: &Key) -> (r: Result<(), StakeError>)
        ensures
            r is Ok <==> value_or_zero(old(self).stake_count@, *staker) + 1 <= u256_max(),
            r is Err ==> *final(self) == *old(self),
            r is Ok ==> counted(old(self).stake_count@, final(self).stake_count@, *staker),
            *final(self) == (StakeableToken { stake_count: final(self).stake_count, ..*old(self) }),
    {
        increase_count(&mut self.stake_count, staker)
    }

    /// Counts one more referral of `referrer`; refused, with no change, past 2^256 - 1.
    pub fn increase_referral_count(&mut self, referrer: &Key) -> (r: Result<(), StakeError>)
        ensures
            r is Ok <==> value_or_zero(old(self).referral_count@, *referrer) + 1 <= u256_max(),
            r is Err ==> *final(self) == *old(self),
            r is Ok ==> counted(old(self).referral_count@, final(self).referral_count@, *referrer),
            *final(self) == (StakeableToken { referral_count: final(self).referral_count, ..*old(self) }),
    {
        increase_count(&mut self.referral_count, referrer)
    }

    /// Counts one more liquidity stake of `staker`; refused, with no change,
    /// past 2^256 - 1.
    pub fn increase_liquidity_stake_count(&mut self, staker: &Key) -> (r: Result<(), StakeError>)
        ensures
            r is Ok <==> value_or_zero(old(self).liquidity_stake_count@, *staker) + 1 <= u256_max(),
            r is Err ==> *final(self) == *old(self),
            r is Ok ==> counted(old(self).liquidity_stake_count@, final(self).liquidity_stake_count@, *staker),
            *final(self) == (StakeableToken { liquidity_stake_count: final(self).liquidity_stake_count, ..*old(self) }),
    {
        increase_count(&mut self.liquidity_stake_count, staker)
    }

    /// The id the next stake of `staker` gets.
    pub fn generate_stake_id(&self, staker: &Key) -> (r: Vec<u32>)
        ensures
            r@ == spec_generate_id(*staker, value_or_zero(self.stake_count@, *staker), 1),
    {
        generate_id(staker, read_amount(&self.stake_count, staker), 1)
    }

    /// The id the next referral of `referrer` gets.
    pub fn generate_referral_id(&self, referrer: &Key) -> (r: Vec<u32>)
        ensures
            r@ == spec_generate_id(*referrer, value_or_zero(self.referral_count@, *referrer), 2),
    {
        generate_id(referrer, read_amount(&self.referral_count, referrer), 2)
    }

    /// The id the next liquidity stake of `staker` gets.
    pub fn generate_liquidity_stake_id(&self, staker: &Key) -> (r: Vec<u32>)
        ensures
            r@ == spec_generate_id(*staker, value_or_zero(self.liquidity_stake_count@, *staker), 3),
    {
        generate_id(staker, read_amount(&self.liquidity_stake_count, staker), 3)
    }

    /// The id of the last stake of `staker`, empty when it has none.
    pub fn latest_stake_id(&self, staker: &Key) -> (r: Vec<u32>)
        ensures
            value_or_zero(self.stake_count@, *staker) == 0 ==> r@.len() == 0,
            value_or_zero(self.stake_count@, *staker) > 0 ==> r@ == spec_generate_id(
                *staker,
                (value_or_zero(self.stake_count@, *staker) - 1) as nat,
                1,
            ),
    {
        latest_id(&self.stake_count, staker, 1)
    }

    /// The id of the last referral of `referrer`, empty when it has none.
    pub fn latest_referrer_id(&self, referrer: &Key) -> (r: Vec<u32>)
        ensures
            value_or_zero(self.referral_count@, *referrer) == 0 ==> r@.len() == 0,
            value_or_zero(self.referral_count@, *referrer) > 0 ==> r@ == spec_generate_id(
                *referrer,
                (value_or_zero(self.referral_count@, *referrer) - 1) as nat,
                2,
            ),
    {
        latest_id(&self.referral_count, referrer, 2)
    }

    /// The id of the last liquidity stake of `staker`, empty when it has none.
    pub fn latest_liquidity_stake_id(&self, staker: &Key) -> (r: Vec<u32>)
        ensures
            value_or_zero(self.liquidity_stake_count@, *staker) == 0 ==> r@.len() == 0,
            value_or_zero(self.liquidity_stake_count@, *staker) > 0 ==> r@ == spec_generate_id(
                *staker,
                (value_or_zero(self.liquidity_stake_count@, *staker) - 1) as nat,
                3,
            ),
    {
        latest_id(&self.liquidity_stake_count, staker, 3)
    }
}

/// The id of the last record counted under a key, empty when there is none.
fn latest_id(counts: &crate::dict::Dict<Key, U256>, key: &Key, tag: u8) -> (r: Vec<u32>)
    ensures
        value_or_zero(counts@, *key) == 0 ==> r@.len() == 0,
        value_or_zero(counts@, *key) > 0 ==> r@ == spec_generate_id(
            *key,
            (value_or_zero(counts@, *key) - 1) as nat,
            tag,
        ),
{
    let count = read_amount(counts, key);
    if count.is_zero() {
        Vec::new()
    } else {
        match minus(count, U256::from_u64(1)) {
            Ok(prev) => generate_id(key, prev, tag),
            Err(_) => Vec::new(),
        }
    }
}

} // verus!
