//! The half-precision texel codec: the lossy storage format of a flow
//! field.
//!
//! Each stored channel is an IEEE-754 half-precision (16-bit) scalar;
//! each in-session channel is single precision (32-bit). Both are carried
//! as raw bit patterns. [`narrow`] converts single to half precision with
//! round-to-nearest-even (ties to even, overflow to infinity, underflow
//! through the subnormal range to signed zero); [`widen`] converts half
//! to single precision, which is exact. The spec functions [`spec_narrow`]
//! and [`spec_widen`] define the format bit for bit and are what every
//! contract above the codec speaks of; the test suite holds both
//! conversions to the `half` crate's, bit for bit.

use vstd::prelude::*;

use crate::vector::FlowVector;

verus! {

/// One compressed grid cell: the four flow vector lanes, each reduced to
/// the bit pattern of an IEEE-754 half-precision scalar.
#[derive(Clone, Copy, PartialEq, Eq, Structural, Debug)]
pub struct Texel {
    /// Compressed first momentum density component.
    pub x: u16,
    /// Compressed second momentum density component.
    pub y: u16,
    /// Compressed third momentum density component.
    pub z: u16,
    /// Compressed density.
    pub w: u16,
}

/// The half-precision bit pattern nearest to the single-precision scalar
/// with bit pattern `w`, rounding ties to even.
///
/// Laid out by cases on the single-precision exponent field:
/// - `0xFF`: an infinity stays an infinity; a NaN keeps its top mantissa
///   bits and has the quiet bit forced.
/// - at least `143` (above the half-precision range): signed infinity.
/// - `113..=142`: a normal half-precision number, mantissa rounded to
///   nearest-even (a mantissa carry may round up into the next exponent,
///   and from the largest finite value into infinity).
/// - `102..=112`: a subnormal half-precision number, rounded likewise.
/// - below `102`: too small for the subnormal range; signed zero.
pub open spec fn spec_narrow(w: u32) -> u16 {
    let sign = (w >> 16) & 0x8000;
    let exp = (w >> 23) & 0xFF;
    let man = w & 0x007F_FFFF;
    if exp == 0xFF {
        if man == 0 {
            (sign | 0x7C00) as u16
        } else {
            (sign | 0x7C00 | 0x0200 | (man >> 13)) as u16
        }
    } else if exp >= 143 {
        (sign | 0x7C00) as u16
    } else if exp >= 113 {
        let base = sign | (((exp - 112) as u32) << 10) | (man >> 13);
        if man & 0x1000 != 0 && man & 0x2FFF != 0 {
            (base + 1) as u16
        } else {
            base as u16
        }
    } else if exp >= 102 {
        let full_man = man | 0x0080_0000;
        let half_man = full_man >> ((126 - exp) as u32);
        let round_bit = 1u32 << ((125 - exp) as u32);
        if full_man & round_bit != 0 && full_man & ((3 * round_bit - 1) as u32) != 0 {
            (sign | ((half_man + 1) as u32)) as u16
        } else {
            (sign | half_man) as u16
        }
    } else {
        sign as u16
    }
}

/// How far a non-zero half-precision subnormal mantissa sits below the
/// implicit leading bit: the exponent adjustment used when widening.
pub open spec fn spec_subnormal_shift(man: u32) -> u32 {
    if man >= 0x200 {
        0u32
    } else if man >= 0x100 {
        1u32
    } else if man >= 0x80 {
        2u32
    } else if man >= 0x40 {
        3u32
    } else if man >= 0x20 {
        4u32
    } else if man >= 0x10 {
        5u32
    } else if man >= 0x8 {
        6u32
    } else if man >= 0x4 {
        7u32
    } else if man >= 0x2 {
        8u32
    } else {
        9u32
    }
}

/// The single-precision bit pattern of the half-precision scalar with bit
/// pattern `h`. Every half-precision value is exactly representable in
/// single precision, so this conversion is exact.
///
/// Laid out by cases: a signed zero stays a signed zero; an infinity
/// stays an infinity; a NaN keeps its mantissa bits and has the quiet bit
/// forced; a subnormal is normalized into the wider exponent range; a
/// normal number is rebiased with its mantissa shifted up.
pub open spec fn spec_widen(h: u16) -> u32 {
    let bits = h as u32;
    let sign = (bits & 0x8000) << 16;
    let exp = (bits >> 10) & 0x1F;
    let man = bits & 0x03FF;
    if bits & 0x7FFF == 0 {
        bits << 16
    } else if exp == 0x1F {
        if man == 0 {
            sign | 0x7F80_0000
        } else {
            sign | 0x7FC0_0000 | (man << 13)
        }
    } else if exp == 0 {
        let e = spec_subnormal_shift(man);
        sign | (((112 - e) as u32) << 23) | ((man << ((14 + e) as u32)) & 0x007F_FFFF)
    } else {
        sign | (((exp + 112) as u32) << 23) | (man << 13)
    }
}

/// Narrows the single-precision scalar with bit pattern `w` to the
/// nearest half-precision bit pattern, rounding ties to even.
pub fn narrow(w: u32) -> (r: u16)
    ensures
        r == spec_narrow(w),
{
    let sign = (w >> 16) & 0x8000;
    let exp = (w >> 23) & 0xFF;
    let man = w & 0x007F_FFFF;
    if exp == 0xFF {
        if man == 0 {
            (sign | 0x7C00) as u16
        } else {
            (sign | 0x7C00 | 0x0200 | (man >> 13)) as u16
        }
    } else if exp >= 143 {
        (sign | 0x7C00) as u16
    } else if exp >= 113 {
        let eadj = exp - 112;
        let base = sign | (eadj << 10) | (man >> 13);
        proof {
            assert(base <= 0xFFFE) by (bit_vector)
                requires
                    base == (((w >> 16) & 0x8000) | (eadj << 10) | ((w & 0x007F_FFFF) >> 13)),
                    1 <= eadj <= 30,
            ;
        }
        if man & 0x1000 != 0 && man & 0x2FFF != 0 {
            (base + 1) as u16
        } else {
            base as u16
        }
    } else if exp >= 102 {
        let full_man = man | 0x0080_0000;
        let down = 126 - exp;
        let half_man = full_man >> down;
        let rshift = 125 - exp;
        let round_bit = 1u32 << rshift;
        proof {
            assert(half_man <= 0x3FF && 1 <= round_bit && round_bit <= 0x0080_0000)
                by (bit_vector)
                requires
                    half_man == ((w & 0x007F_FFFF) | 0x0080_0000) >> down,
                    14 <= down <= 24,
                    round_bit == 1u32 << rshift,
                    rshift <= 23,
            ;
        }
        if full_man & round_bit != 0 && full_man & (3 * round_bit - 1) != 0 {
            (sign | (half_man + 1)) as u16
        } else {
            (sign | half_man) as u16
        }
    } else {
        sign as u16
    }
}

/// The exponent adjustment for widening the non-zero subnormal mantissa
/// `man`.
fn subnormal_shift(man: u32) -> (r: u32)
    ensures
        r == spec_subnormal_shift(man),
{
    if man >= 0x200 {
        0
    } else if man >= 0x100 {
        1
    } else if man >= 0x80 {
        2
    } else if man >= 0x40 {
        3
    } else if man >= 0x20 {
        4
    } else if man >= 0x10 {
        5
    } else if man >= 0x8 {
        6
    } else if man >= 0x4 {
        7
    } else if man >= 0x2 {
        8
    } else {
        9
    }
}

/// Widens the half-precision scalar with bit pattern `h` to its exact
/// single-precision bit pattern.
pub fn widen(h: u16) -> (r: u32)
    ensures
        r == spec_widen(h),
{
    let bits = h as u32;
    let sign = (bits & 0x8000) << 16;
    let exp = (bits >> 10) & 0x1F;
    let man = bits & 0x03FF;
    if bits & 0x7FFF == 0 {
        bits << 16
    } else if exp == 0x1F {
        if man == 0 {
            sign | 0x7F80_0000
        } else {
            sign | 0x7FC0_0000 | (man << 13)
        }
    } else if exp == 0 {
        let e = subnormal_shift(man);
        sign | ((112 - e) << 23) | ((man << (14 + e)) & 0x007F_FFFF)
    } else {
        proof {
            assert((bits >> 10) & 0x1F <= 0x1F) by (bit_vector);
        }
        sign | ((exp + 112) << 23) | (man << 13)
    }
}

/// The texel storing `v`: every lane narrowed to half precision.
pub open spec fn compress(v: FlowVector) -> Texel {
    Texel {
        x: spec_narrow(v.x),
        y: spec_narrow(v.y),
        z: spec_narrow(v.z),
        w: spec_narrow(v.w),
    }
}

/// The flow vector read back from `t`: every lane widened to single
/// precision.
pub open spec fn decompress(t: Texel) -> FlowVector {
    FlowVector {
        x: spec_widen(t.x),
        y: spec_widen(t.y),
        z: spec_widen(t.z),
        w: spec_widen(t.w),
    }
}

/// Compresses one flow vector into a stored texel.
pub fn compress_texel(v: FlowVector) -> (r: Texel)
    ensures
        r == compress(v),
{
    Texel { x: narrow(v.x), y: narrow(v.y), z: narrow(v.z), w: narrow(v.w) }
}

/// Decompresses one stored texel back to full precision.
pub fn decompress_texel(t: Texel) -> (r: FlowVector)
    ensures
        r == decompress(t),
{
    FlowVector { x: widen(t.x), y: widen(t.y), z: widen(t.z), w: widen(t.w) }
}

/// The zero vector compresses to the all-zero texel, and that texel
/// decompresses back to the zero vector: the zero pattern survives the
/// codec exactly.
pub proof fn lemma_zero_round_trip()
    ensures
        compress(FlowVector::spec_zero()) == (Texel { x: 0u16, y: 0u16, z: 0u16, w: 0u16 }),
        decompress(Texel { x: 0u16, y: 0u16, z: 0u16, w: 0u16 }) == FlowVector::spec_zero(),
{
    assert((0u32 >> 16) & 0x8000 == 0 && (0u32 >> 23) & 0xFF == 0 && 0u32 & 0x007F_FFFF == 0)
        by (bit_vector);
    assert(spec_narrow(0) == 0);
    assert(0u32 & 0x7FFF == 0 && 0u32 << 16 == 0) by (bit_vector);
    assert(spec_widen(0) == 0);
}

} // verus!
