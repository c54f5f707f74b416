//! Bits of integers, stated arithmetically, and their agreement with the
//! mask tests the decoders perform.

use vstd::prelude::*;
use vstd::arithmetic::power2::pow2;
use vstd::arithmetic::power2::lemma2_to64;

verus! {

/// Whether bit `k` (0 is the least significant) of the non-negative integer
/// `x` is set.
#[verifier::opaque]
pub open spec fn bit(x: int, k: nat) -> bool {
    (x / (pow2(k) as int)) % 2 == 1
}

/// Testing a byte against a one-bit mask reads the bit of that position, and
/// masking with 0x0F keeps the low nibble.
pub proof fn lemma_u8_masks(b: u8)
    ensures
        ((b & 0x01u8) != 0) == bit(b as int, 0),
        ((b & 0x02u8) != 0) == bit(b as int, 1),
        ((b & 0x04u8) != 0) == bit(b as int, 2),
        ((b & 0x08u8) != 0) == bit(b as int, 3),
        ((b & 0x10u8) != 0) == bit(b as int, 4),
        ((b & 0x20u8) != 0) == bit(b as int, 5),
        ((b & 0x40u8) != 0) == bit(b as int, 6),
        ((b & 0x80u8) != 0) == bit(b as int, 7),
        (b & 0x0Fu8) as int == (b as int) % 16,
{
    reveal(bit);
    lemma2_to64();
    assert({
        &&& ((b & 0x01u8) != 0) == (b % 2 == 1)
        &&& ((b & 0x02u8) != 0) == ((b / 2) % 2 == 1)
        &&& ((b & 0x04u8) != 0) == ((b / 4) % 2 == 1)
        &&& ((b & 0x08u8) != 0) == ((b / 8) % 2 == 1)
        &&& ((b & 0x10u8) != 0) == ((b / 16) % 2 == 1)
        &&& ((b & 0x20u8) != 0) == ((b / 32) % 2 == 1)
        &&& ((b & 0x40u8) != 0) == ((b / 64) % 2 == 1)
        &&& ((b & 0x80u8) != 0) == ((b / 128) % 2 == 1)
        &&& (b & 0x0Fu8) == b % 16
    }) by (bit_vector);
}

/// Testing a 16-bit word against a one-bit mask reads the bit of that
/// position.
pub proof fn lemma_u16_masks(w: u16)
    ensures
        ((w & 0x0001u16) != 0) == bit(w as int, 0),
        ((w & 0x0002u16) != 0) == bit(w as int, 1),
        ((w & 0x0004u16) != 0) == bit(w as int, 2),
        ((w & 0x0008u16) != 0) == bit(w as int, 3),
        ((w & 0x0010u16) != 0) == bit(w as int, 4),
        ((w & 0x0020u16) != 0) == bit(w as int, 5),
        ((w & 0x0040u16) != 0) == bit(w as int, 6),
        ((w & 0x0080u16) != 0) == bit(w as int, 7),
        ((w & 0x0100u16) != 0) == bit(w as int, 8),
        ((w & 0x0200u16) != 0) == bit(w as int, 9),
        ((w & 0x0400u16) != 0) == bit(w as int, 10),
        ((w & 0x0800u16) != 0) == bit(w as int, 11),
        ((w & 0x1000u16) != 0) == bit(w as int, 12),
        ((w & 0x2000u16) != 0) == bit(w as int, 13),
        ((w & 0x4000u16) != 0) == bit(w as int, 14),
        ((w & 0x8000u16) != 0) == bit(w as int, 15),
{
    reveal(bit);
    lemma2_to64();
    assert({
        &&& ((w & 0x0001u16) != 0) == (w % 2 == 1)
        &&& ((w & 0x0002u16) != 0) == ((w / 0x0002) % 2 == 1)
        &&& ((w & 0x0004u16) != 0) == ((w / 0x0004) % 2 == 1)
        &&& ((w & 0x0008u16) != 0) == ((w / 0x0008) % 2 == 1)
        &&& ((w & 0x0010u16) != 0) == ((w / 0x0010) % 2 == 1)
        &&& ((w & 0x0020u16) != 0) == ((w / 0x0020) % 2 == 1)
        &&& ((w & 0x0040u16) != 0) == ((w / 0x0040) % 2 == 1)
        &&& ((w & 0x0080u16) != 0) == ((w / 0x0080) % 2 == 1)
        &&& ((w & 0x0100u16) != 0) == ((w / 0x0100) % 2 == 1)
        &&& ((w & 0x0200u16) != 0) == ((w / 0x0200) % 2 == 1)
        &&& ((w & 0x0400u16) != 0) == ((w / 0x0400) % 2 == 1)
        &&& ((w & 0x0800u16) != 0) == ((w / 0x0800) % 2 == 1)
        &&& ((w & 0x1000u16) != 0) == ((w / 0x1000) % 2 == 1)
        &&& ((w & 0x2000u16) != 0) == ((w / 0x2000) % 2 == 1)
        &&& ((w & 0x4000u16) != 0) == ((w / 0x4000) % 2 == 1)
        &&& ((w & 0x8000u16) != 0) == ((w / 0x8000) % 2 == 1)
    }) by (bit_vector);
}

} // verus!
