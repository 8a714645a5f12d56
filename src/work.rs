use vstd::prelude::*;

verus! {

/// `hash` begins with at least `difficulty` zero bits (most significant bit
/// of byte 0 first), and `difficulty` asks for no more bits than the hash has.
pub open spec fn meets_difficulty(hash: Seq<u8>, difficulty: nat) -> bool {
    &&& difficulty <= 8 * hash.len()
    &&& forall|i: int| 0 <= i < difficulty / 8 ==> hash[i] == 0
    &&& difficulty % 8 != 0 ==> (hash[(difficulty / 8) as int] >> ((8 - difficulty % 8) as u8)) == 0
}

proof fn lemma_mask_is_shift(b: u8, s: u8)
    requires
        1 <= s <= 7,
    ensures
        ((b & (0xffu8 << s)) == 0) == ((b >> s) == 0),
{
    assert(((b & (0xffu8 << s)) == 0) == ((b >> s) == 0)) by (bit_vector)
        requires
            1 <= s <= 7,
    ;
}

/// Whether `hash` has at least `difficulty` leading zero bits. A difficulty
/// beyond the 256 bits of the hash is never met.
pub fn check_difficulty(hash: &[u8; 32], difficulty: u64) -> (r: bool)
    ensures
        r == meets_difficulty(hash@, difficulty as nat),
{
    if difficulty > 256 {
        return false;
    }
    let full_bytes = (difficulty / 8) as usize;
    let remaining_bits = (difficulty % 8) as u8;
    let mut i: usize = 0;
    while i < full_bytes
        invariant
            full_bytes == difficulty / 8,
            full_bytes <= 32,
            hash@.len() == 32,
            i <= full_bytes,
            forall|j: int| 0 <= j < i ==> hash@[j] == 0,
        decreases full_bytes - i,
    {
        if hash[i] != 0 {
            return false;
        }
        i = i + 1;
    }
    if remaining_bits > 0 && full_bytes < 32 {
        let shift: u8 = 8 - remaining_bits;
        let mask: u8 = 0xffu8 << shift;
        proof {
            lemma_mask_is_shift(hash@[full_bytes as int], shift);
        }
        if hash[full_bytes] & mask != 0 {
            return false;
        }
    }
    true
}

/// A 32-byte hash whose only set bit is bit `p`, counted from the most
/// significant bit of byte 0.
pub open spec fn single_bit_hash(p: nat) -> Seq<u8> {
    Seq::new(32, |i: int| if i == p / 8 { 0x80u8 >> ((p % 8) as u8) } else { 0u8 })
}

/// A hash of all zero bytes meets every difficulty up to its 256 bits.
pub proof fn lemma_zero_hash_meets(difficulty: nat)
    requires
        difficulty <= 256,
    ensures
        meets_difficulty(Seq::new(32, |i: int| 0u8), difficulty),
{
    let d = difficulty;
    if d % 8 != 0 {
        let s = (8 - d % 8) as u8;
        assert((0u8 >> s) == 0) by (bit_vector);
    }
}

/// A hash whose first set bit is the `difficulty`-th bit fails exactly that
/// difficulty and meets the one below it.
pub proof fn lemma_single_bit_threshold(difficulty: nat)
    requires
        1 <= difficulty <= 256,
    ensures
        !meets_difficulty(single_bit_hash((difficulty - 1) as nat), difficulty),
        meets_difficulty(single_bit_hash((difficulty - 1) as nat), (difficulty - 1) as nat),
{
    let d = difficulty;
    let p = (d - 1) as nat;
    let h = single_bit_hash(p);
    let s = (p % 8) as u8;
    if d % 8 == 0 {
        assert(s == 7);
        assert((0x80u8 >> 7u8) != 0) by (bit_vector);
        assert(h[(p / 8) as int] != 0);
    } else {
        assert(p / 8 == d / 8);
        let r = (d % 8) as u8;
        assert(s == r - 1);
        assert(((0x80u8 >> s) >> ((8 - r) as u8)) == 1) by (bit_vector)
            requires
                1 <= r <= 7,
                s == r - 1,
        ;
    }
    if p % 8 != 0 {
        assert(((0x80u8 >> s) >> ((8 - s) as u8)) == 0) by (bit_vector)
            requires
                1 <= s <= 7,
        ;
    }
}

} // verus!
