//! The 8085 flag byte and its bit layout.
//!
//! Bit 7 is S (sign), bit 6 is Z (zero), bit 4 is AC (auxiliary carry),
//! bit 2 is P (parity, set on an even population count), bit 0 is CY
//! (carry).  Bits 5 and 1 are a pair of overflow witnesses peculiar to
//! this design: every operation that sets one sets the other.  Bit 3 is
//! reserved and never written by flag updates.

use vstd::prelude::*;

verus! {

/// Mask of the sign flag, bit 7 of F.
pub const MASK_S: u8 = 0x80;

/// Mask of the zero flag, bit 6 of F.
pub const MASK_Z: u8 = 0x40;

/// Mask of the high overflow witness, bit 5 of F.
pub const MASK_K: u8 = 0x20;

/// Mask of the auxiliary carry flag, bit 4 of F.
pub const MASK_AC: u8 = 0x10;

/// Mask of the parity flag, bit 2 of F.
pub const MASK_P: u8 = 0x04;

/// Mask of the low overflow witness, bit 1 of F.
pub const MASK_V: u8 = 0x02;

/// Mask of the carry flag, bit 0 of F.
pub const MASK_CY: u8 = 0x01;

/// Both overflow witnesses, bits 5 and 1, which always move together.
pub const MASK_OV: u8 = 0x22;

/// True when the sign flag is set in `f`.
pub open spec fn flag_s(f: u8) -> bool {
    f & MASK_S != 0
}

/// True when the zero flag is set in `f`.
pub open spec fn flag_z(f: u8) -> bool {
    f & MASK_Z != 0
}

/// True when the auxiliary carry flag is set in `f`.
pub open spec fn flag_ac(f: u8) -> bool {
    f & MASK_AC != 0
}

/// True when the parity flag is set in `f`.
pub open spec fn flag_p(f: u8) -> bool {
    f & MASK_P != 0
}

/// True when the carry flag is set in `f`.
pub open spec fn flag_cy(f: u8) -> bool {
    f & MASK_CY != 0
}

/// True when the overflow witnesses are set in `f`; read from bit 5.
pub open spec fn flag_ov(f: u8) -> bool {
    f & MASK_K != 0
}

/// The flag byte with the bits of `mask` forced to `b`.
pub open spec fn spec_set_mask(f: u8, mask: u8, b: bool) -> u8 {
    if b {
        f | mask
    } else {
        f & !mask
    }
}

/// The number of set bits in `x`.
pub open spec fn popcount(x: u8) -> int {
    (x & 1) + ((x >> 1) & 1) + ((x >> 2) & 1) + ((x >> 3) & 1) + ((x >> 4) & 1) + ((x >> 5) & 1)
        + ((x >> 6) & 1) + ((x >> 7) & 1)
}

/// True when `x` has an even number of set bits: the value the parity
/// flag takes after an operation whose result is `x`.
pub open spec fn even_parity(x: u8) -> bool {
    popcount(x) % 2 == 0
}

/// Computes the parity of `x` by folding the byte onto its low bit.
pub fn find_parity(x: u8) -> (r: bool)
    ensures
        r == even_parity(x),
{
    let y1: u8 = x ^ (x >> 1);
    let y2: u8 = y1 ^ (y1 >> 2);
    let y3: u8 = y2 ^ (y2 >> 4);
    proof {
        assert(((((x ^ (x >> 1)) ^ ((x ^ (x >> 1)) >> 2)) ^ (((x ^ (x >> 1)) ^ ((x ^ (x >> 1))
            >> 2)) >> 4)) & 1 == 0) == (((x & 1) + ((x >> 1) & 1) + ((x >> 2) & 1) + ((x >> 3) & 1)
            + ((x >> 4) & 1) + ((x >> 5) & 1) + ((x >> 6) & 1) + ((x >> 7) & 1)) % 2 == 0))
            by (bit_vector);
    }
    y3 & 1 == 0
}

/// Sets or clears the bits of `mask` in `f` according to `b`.
pub fn set_mask(f: u8, mask: u8, b: bool) -> (r: u8)
    ensures
        r == spec_set_mask(f, mask, b),
{
    if b {
        f | mask
    } else {
        f & !mask
    }
}

} // verus!
