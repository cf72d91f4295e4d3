//! Checksum engine: the Sensirion CRC-8 over arbitrary byte messages.
//!
//! Polynomial 0x31, initial remainder 0xFF, no final xor. Every word the
//! sensor transmits or accepts carries this checksum over its two data bytes.

use vstd::prelude::*;

verus! {

/// One shift-and-reduce round: shift the remainder left one bit and, when the
/// high bit was set, reduce by the polynomial 0x31.
pub open spec fn crc8_round(rem: u8) -> u8 {
    if rem & 0x80 != 0 {
        (rem << 1) ^ 0x31
    } else {
        rem << 1
    }
}

/// The remainder after `n` shift-and-reduce rounds.
pub open spec fn crc8_rounds(rem: u8, n: nat) -> u8
    decreases n,
{
    if n == 0 {
        rem
    } else {
        crc8_round(crc8_rounds(rem, (n - 1) as nat))
    }
}

/// Folding one message byte into the remainder: xor it in, then eight rounds.
pub open spec fn crc8_fold_byte(rem: u8, byte: u8) -> u8 {
    crc8_rounds(rem ^ byte, 8)
}

/// The remainder after folding the first `n` bytes of `message` into the
/// initial remainder 0xFF.
pub open spec fn crc8_prefix(message: Seq<u8>, n: nat) -> u8
    recommends
        n <= message.len(),
    decreases n,
{
    if n == 0 {
        0xFF
    } else {
        crc8_fold_byte(crc8_prefix(message, (n - 1) as nat), message[n - 1])
    }
}

/// The Sensirion CRC-8 of a whole message. A value depends on the message
/// bytes alone, so any two calls of [`crc8`] on equal byte sequences agree.
pub open spec fn spec_crc8(message: Seq<u8>) -> u8 {
    crc8_prefix(message, message.len())
}

/// Computes the Sensirion CRC-8 of `message`: remainder 0xFF, then for each
/// byte xor it into the remainder and run eight rounds of shift-left,
/// reducing by 0x31 whenever the high bit was set.
pub fn crc8(message: &Vec<u8>) -> (r: u8)
    ensures
        r == spec_crc8(message@),
{
    let mut rem: u8 = 0xFF;
    let mut i: usize = 0;
    while i < message.len()
        invariant
            i <= message@.len(),
            rem == crc8_prefix(message@, i as nat),
        decreases message@.len() - i,
    {
        rem = rem ^ message[i];
        let ghost folded: u8 = rem;
        let mut k: usize = 0;
        while k < 8
            invariant
                k <= 8,
                rem == crc8_rounds(folded, k as nat),
            decreases 8 - k,
        {
            if (rem & 0x80) != 0 {
                rem = (rem << 1) ^ 0x31;
            } else {
                rem = rem << 1;
            }
            k = k + 1;
        }
        i = i + 1;
    }
    rem
}

proof fn lemma_rounds8_unfold(d: u8)
    ensures
        crc8_rounds(d, 8) == crc8_round(crc8_round(crc8_round(crc8_round(crc8_round(crc8_round(
            crc8_round(crc8_round(d)),
        )))))),
{
    assert(crc8_rounds(d, 0) == d);
    assert(crc8_rounds(d, 1) == crc8_round(crc8_rounds(d, 0)));
    assert(crc8_rounds(d, 2) == crc8_round(crc8_rounds(d, 1)));
    assert(crc8_rounds(d, 3) == crc8_round(crc8_rounds(d, 2)));
    assert(crc8_rounds(d, 4) == crc8_round(crc8_rounds(d, 3)));
    assert(crc8_rounds(d, 5) == crc8_round(crc8_rounds(d, 4)));
    assert(crc8_rounds(d, 6) == crc8_round(crc8_rounds(d, 5)));
    assert(crc8_rounds(d, 7) == crc8_round(crc8_rounds(d, 6)));
    assert(crc8_rounds(d, 8) == crc8_round(crc8_rounds(d, 7)));
}

/// The eight rounds of one byte fold are a bijection of the remainder: the
/// polynomial's constant term re-encodes each shifted-out high bit in the
/// low bit, so no two remainders collide.
proof fn lemma_rounds8_injective(x: u8, y: u8)
    requires
        x != y,
    ensures
        crc8_rounds(x, 8) != crc8_rounds(y, 8),
{
    lemma_rounds8_unfold(x);
    lemma_rounds8_unfold(y);
    assert(crc8_round(crc8_round(crc8_round(crc8_round(crc8_round(crc8_round(crc8_round(
        crc8_round(x),
    ))))))) != crc8_round(crc8_round(crc8_round(crc8_round(crc8_round(crc8_round(crc8_round(
        crc8_round(y),
    ))))))))
        by (bit_vector)
        requires
            x != y,
    ;
}

proof fn lemma_fold_byte_injective_in_byte(rem: u8, x: u8, y: u8)
    requires
        x != y,
    ensures
        crc8_fold_byte(rem, x) != crc8_fold_byte(rem, y),
{
    assert(rem ^ x != rem ^ y) by (bit_vector)
        requires
            x != y,
    ;
    lemma_rounds8_injective(rem ^ x, rem ^ y);
}

proof fn lemma_fold_byte_injective_in_rem(r1: u8, r2: u8, byte: u8)
    requires
        r1 != r2,
    ensures
        crc8_fold_byte(r1, byte) != crc8_fold_byte(r2, byte),
{
    assert(r1 ^ byte != r2 ^ byte) by (bit_vector)
        requires
            r1 != r2,
    ;
    lemma_rounds8_injective(r1 ^ byte, r2 ^ byte);
}

proof fn lemma_prefix_corruption(m1: Seq<u8>, m2: Seq<u8>, i: int, n: nat)
    requires
        m1.len() == m2.len(),
        0 <= i < m1.len(),
        m1[i] != m2[i],
        forall|j: int| 0 <= j < m1.len() && j != i ==> m1[j] == m2[j],
        n <= m1.len(),
    ensures
        n <= i ==> crc8_prefix(m1, n) == crc8_prefix(m2, n),
        n > i ==> crc8_prefix(m1, n) != crc8_prefix(m2, n),
    decreases n,
{
    if n > 0 {
        lemma_prefix_corruption(m1, m2, i, (n - 1) as nat);
        let p1 = crc8_prefix(m1, (n - 1) as nat);
        let p2 = crc8_prefix(m2, (n - 1) as nat);
        if n - 1 == i {
            lemma_fold_byte_injective_in_byte(p1, m1[i], m2[i]);
        } else if n - 1 > i {
            lemma_fold_byte_injective_in_rem(p1, p2, m1[n - 1]);
        }
    }
}

/// A message corrupted in exactly one byte never keeps its CRC-8: every
/// folding step of the algorithm is injective, so the corruption cannot
/// cancel out. In particular, flipping any single bit of a message always
/// changes its checksum -- certainly, not merely with high likelihood.
pub proof fn lemma_crc8_one_byte_corruption(m1: Seq<u8>, m2: Seq<u8>, i: int)
    requires
        m1.len() == m2.len(),
        0 <= i < m1.len(),
        m1[i] != m2[i],
        forall|j: int| 0 <= j < m1.len() && j != i ==> m1[j] == m2[j],
    ensures
        spec_crc8(m1) != spec_crc8(m2),
{
    lemma_prefix_corruption(m1, m2, i, m1.len());
}

/// The checksum of a single two-byte group, the shape every sensor word uses.
pub fn crc8_pair(a: u8, b: u8) -> (r: u8)
    ensures
        r == spec_crc8(seq![a, b]),
{
    let mut message: Vec<u8> = Vec::new();
    message.push(a);
    message.push(b);
    proof {
        assert(message@ =~= seq![a, b]);
    }
    crc8(&message)
}

} // verus!
