use vstd::prelude::*;

use crate::u256::U256;

verus! {

/// The number of bytes `x` takes without leading zeros.
pub open spec fn spec_byte_len(x: nat) -> nat
    decreases x,
{
    if x == 0 {
        0
    } else {
        1 + spec_byte_len(x / 256)
    }
}

/// The `i`-th byte of `x`, least significant first.
pub open spec fn spec_le_byte(x: nat, i: nat) -> u8
    decreases i,
{
    if i == 0 {
        (x % 256) as u8
    } else {
        spec_le_byte(x / 256, (i - 1) as nat)
    }
}

/// The bytes of a 256-bit number in the ledger's encoding: their count, then
/// the number's bytes, least significant first, without leading zeros.
pub open spec fn spec_u256_bytes(x: nat) -> Seq<u8> {
    let n = spec_byte_len(x);
    Seq::new(n + 1, |i: int| if i == 0 { n as u8 } else { spec_le_byte(x, (i - 1) as nat) })
}

/// The 16-bit numbers a byte string makes taken in pairs, each pair
/// little-endian; a last odd byte is dropped.
pub open spec fn spec_pairs16(b: Seq<u8>) -> Seq<u16> {
    Seq::new(b.len() / 2, |i: int| ((b[2 * i] as int) + (b[2 * i + 1] as int) * 256) as u16)
}

/// `casper_types::bytesrepr::ToBytes::to_bytes` on a `casper_types::U256`:
/// the count of the number's bytes without leading zeros, then those bytes,
/// least significant first.
#[verifier::external_body]
fn u256_to_bytes(x: U256) -> (r: Vec<u8>)
    ensures
        r@ == spec_u256_bytes(x@),
{
    let v = casper_types::U256([x.w0, x.w1, x.w2, x.w3]);
    casper_types::bytesrepr::ToBytes::to_bytes(&v).unwrap_or_default()
}

/// A 256-bit number as 16-bit numbers: its ledger encoding taken in pairs of
/// bytes, each pair little-endian, a last odd byte dropped.
pub fn to_bytes16(x: U256) -> (r: Vec<u16>)
    ensures
        r@ == spec_pairs16(spec_u256_bytes(x@)),
{
    let b = u256_to_bytes(x);
    let mut out: Vec<u16> = Vec::new();
    let mut i: usize = 0;
    let n = b.len() / 2;
    assert(2 * n <= b@.len());
    while i < n
        invariant
            0 <= i <= n,
            n == b@.len() / 2,
            2 * n <= b@.len(),
            b@ == spec_u256_bytes(x@),
            out@.len() == i,
            forall|j: int| 0 <= j < i ==> out@[j] == ((b@[2 * j] as int) + (b@[2 * j + 1] as int) * 256) as u16,
        decreases n - i,
    {
        assert(2 * i + 1 < b.len());
        let lo: u16 = b[2 * i] as u16;
        let hi: u16 = b[2 * i + 1] as u16;
        out.push(lo + hi * 256);
        i = i + 1;
    }
    assert(out@ =~= spec_pairs16(b@));
    out
}

} // verus!
