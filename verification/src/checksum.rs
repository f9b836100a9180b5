//! Checksum engine: the 16-bit CRC that guards the configuration record.
//!
//! The device firmware computes a CRC-16/CCITT-style checksum: initial value
//! `0xFFFF`, and for each input byte, xor the byte into the high byte of the
//! running value, then run eight rounds that shift left and conditionally
//! xor with the polynomial `0x1021`. The input stream is the configuration
//! record in line order, excluding the final two trailer bytes, and the
//! result is stored big-endian in those two trailer positions.

use vstd::prelude::*;

verus! {

/// One round of the bit loop: shift left, and if the top bit was set,
/// fold in the polynomial `0x1021`.
pub open spec fn spec_crc_round(c: u16) -> u16 {
    if c & 0x8000 == 0x8000 {
        (c << 1) ^ 0x1021
    } else {
        c << 1
    }
}

/// `n` rounds of the bit loop applied to `c`.
pub open spec fn spec_crc_rounds(c: u16, n: nat) -> u16
    decreases n,
{
    if n == 0 {
        c
    } else {
        spec_crc_round(spec_crc_rounds(c, (n - 1) as nat))
    }
}

/// Folding one byte into the running checksum: xor into the high byte,
/// then eight rounds of the bit loop.
pub open spec fn spec_crc_update(c: u16, b: u8) -> u16 {
    spec_crc_rounds(c ^ ((b as u16) << 8), 8)
}

/// Checksum of a byte stream: initial value `0xFFFF`, bytes folded in order.
pub open spec fn spec_crc16(s: Seq<u8>) -> u16
    decreases s.len(),
{
    if s.len() == 0 {
        0xffff
    } else {
        spec_crc_update(spec_crc16(s.drop_last()), s.last())
    }
}

/// High byte of the checksum, stored first in the record trailer.
pub open spec fn spec_crc_hi(c: u16) -> u8 {
    (c / 256) as u8
}

/// Low byte of the checksum, stored second in the record trailer.
pub open spec fn spec_crc_lo(c: u16) -> u8 {
    (c % 256) as u8
}

/// Folds one byte into a running checksum value.
pub fn crc_update(crc: u16, data: u8) -> (r: u16)
    ensures
        r == spec_crc_update(crc, data),
{
    let seed: u16 = crc ^ ((data as u16) << 8);
    let mut c: u16 = seed;
    let mut i: usize = 0;
    while i < 8
        invariant
            i <= 8,
            c == spec_crc_rounds(seed, i as nat),
        decreases 8 - i,
    {
        if c & 0x8000 == 0x8000 {
            c = (c << 1) ^ 0x1021;
        } else {
            c = c << 1;
        }
        i = i + 1;
    }
    c
}

/// One round of the bit loop never maps two distinct values to the same
/// value: the shifted-out top bit is recorded in the lowest bit through
/// the polynomial's odd constant term.
proof fn lemma_crc_round_injective(c1: u16, c2: u16)
    requires
        c1 != c2,
    ensures
        spec_crc_round(c1) != spec_crc_round(c2),
{
    assert((if c1 & 0x8000 == 0x8000 {
        (c1 << 1) ^ 0x1021
    } else {
        c1 << 1
    }) != (if c2 & 0x8000 == 0x8000 {
        (c2 << 1) ^ 0x1021
    } else {
        c2 << 1
    })) by (bit_vector)
        requires
            c1 != c2,
    ;
}

/// The eight rounds of the bit loop keep distinct values distinct.
proof fn lemma_crc_rounds_injective(c1: u16, c2: u16, n: nat)
    requires
        c1 != c2,
    ensures
        spec_crc_rounds(c1, n) != spec_crc_rounds(c2, n),
    decreases n,
{
    if n > 0 {
        lemma_crc_rounds_injective(c1, c2, (n - 1) as nat);
        lemma_crc_round_injective(spec_crc_rounds(c1, (n - 1) as nat), spec_crc_rounds(c2, (n - 1) as nat));
    }
}

/// Folding the same byte into two distinct running values keeps them
/// distinct.
proof fn lemma_crc_update_injective(c1: u16, c2: u16, b: u8)
    requires
        c1 != c2,
    ensures
        spec_crc_update(c1, b) != spec_crc_update(c2, b),
{
    assert(c1 ^ ((b as u16) << 8) != c2 ^ ((b as u16) << 8)) by (bit_vector)
        requires
            c1 != c2,
    ;
    lemma_crc_rounds_injective(c1 ^ ((b as u16) << 8), c2 ^ ((b as u16) << 8), 8);
}

/// Folding two distinct bytes into the same running value drives the
/// values apart.
proof fn lemma_crc_update_distinguishes(c: u16, b1: u8, b2: u8)
    requires
        b1 != b2,
    ensures
        spec_crc_update(c, b1) != spec_crc_update(c, b2),
{
    assert(c ^ ((b1 as u16) << 8) != c ^ ((b2 as u16) << 8)) by (bit_vector)
        requires
            b1 != b2,
    ;
    lemma_crc_rounds_injective(c ^ ((b1 as u16) << 8), c ^ ((b2 as u16) << 8), 8);
}

/// Changing a single byte of a stream always changes its checksum: two
/// streams of equal length that differ at exactly one position have
/// distinct checksums. In particular, no single-byte (and so no
/// single-bit) corruption of the bytes a record trailer covers leaves
/// the trailer valid.
pub proof fn lemma_crc16_single_byte_change(s1: Seq<u8>, s2: Seq<u8>, i: int)
    requires
        s1.len() == s2.len(),
        0 <= i < s1.len(),
        s1[i] != s2[i],
        forall|j: int| 0 <= j < s1.len() && j != i ==> s1[j] == s2[j],
    ensures
        spec_crc16(s1) != spec_crc16(s2),
    decreases s1.len(),
{
    if i == s1.len() - 1 {
        assert(s1.drop_last() =~= s2.drop_last());
        lemma_crc_update_distinguishes(spec_crc16(s1.drop_last()), s1.last(), s2.last());
    } else {
        lemma_crc16_single_byte_change(s1.drop_last(), s2.drop_last(), i);
        assert(s1.last() == s2.last());
        lemma_crc_update_injective(spec_crc16(s1.drop_last()), spec_crc16(s2.drop_last()), s1.last());
    }
}

/// Checksum of the first `n` bytes of `data`, in order.
pub fn crc16_prefix(data: &Vec<u8>, n: usize) -> (r: u16)
    requires
        n <= data@.len(),
    ensures
        r == spec_crc16(data@.take(n as int)),
{
    let mut c: u16 = 0xffff;
    let mut i: usize = 0;
    while i < n
        invariant
            i <= n,
            n <= data@.len(),
            c == spec_crc16(data@.take(i as int)),
        decreases n - i,
    {
        c = crc_update(c, data[i]);
        proof {
            assert(data@.take(i + 1).drop_last() =~= data@.take(i as int));
            assert(data@.take(i + 1).last() == data@[i as int]);
        }
        i = i + 1;
    }
    c
}

} // verus!
