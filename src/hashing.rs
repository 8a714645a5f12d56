use vstd::prelude::*;
use anchor_lang::solana_program::keccak;

verus! {

/// The Keccak-256 digest of a byte string.
pub uninterp spec fn keccak256_of(data: Seq<u8>) -> Seq<u8>;

/// Relies on `solana_program::keccak::hash`: the 32-byte Keccak-256 digest
/// of `data`, which depends on the bytes alone. Hashing several parts with
/// `keccak::hashv` feeds them to the same hasher in turn, so it equals this
/// digest of their concatenation.
#[verifier::external_body]
pub(crate) fn keccak256(data: &[u8]) -> (r: [u8; 32])
    ensures
        r@ == keccak256_of(data@),
{
    keccak::hash(data).to_bytes()
}

/// Little-endian bytes of a 64-bit word, least significant first.
pub open spec fn le_bytes_spec(x: u64) -> Seq<u8> {
    Seq::new(8, |i: int| ((x >> ((8 * i) as u64)) & 0xff) as u8)
}

/// Appends the little-endian bytes of `x` to `buf`.
pub fn push_le_bytes(buf: &mut Vec<u8>, x: u64)
    ensures
        final(buf)@ == old(buf)@ + le_bytes_spec(x),
{
    let ghost start = buf@;
    let mut i: u64 = 0;
    while i < 8
        invariant
            i <= 8,
            buf@ == start + le_bytes_spec(x).take(i as int),
        decreases 8 - i,
    {
        buf.push(((x >> (8 * i)) & 0xff) as u8);
        assert(le_bytes_spec(x).take((i + 1) as int) =~= le_bytes_spec(x).take(i as int).push(
            ((x >> (8 * i)) & 0xff) as u8,
        ));
        i = i + 1;
    }
    assert(le_bytes_spec(x).take(8) =~= le_bytes_spec(x));
}

/// Appends the bytes of `s` to `buf`.
pub fn push_bytes(buf: &mut Vec<u8>, s: &[u8])
    ensures
        final(buf)@ == old(buf)@ + s@,
{
    let ghost start = buf@;
    let mut i: usize = 0;
    while i < s.len()
        invariant
            i <= s@.len(),
            buf@ == start + s@.take(i as int),
        decreases s@.len() - i,
    {
        buf.push(s[i]);
        assert(s@.take((i + 1) as int) =~= s@.take(i as int).push(s@[i as int]));
        i = i + 1;
    }
    assert(s@.take(s@.len() as int) =~= s@);
}

} // verus!
