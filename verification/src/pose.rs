//! Poses and the spaces they are measured in.

use vstd::prelude::*;

verus! {

/// The bits of a single-precision number, as the runtime lays it out.
///
/// The library carries such numbers between caller and runtime and never
/// computes with them, so it holds their bits.
pub type FloatBits = u32;

/// The bits of the number one.
pub const ONE_BITS: FloatBits = 0x3F80_0000;

/// The bits of the number zero with the sign set.
pub const NEGATIVE_ZERO_BITS: FloatBits = 0x8000_0000;

/// Whether the sign of the number with the bits `bits` is set.
pub open spec fn sign_of(bits: FloatBits) -> bool {
    bits >> 31 == 1
}

/// The exponent field of the number with the bits `bits`. The field of one
/// is 127; a smaller field belongs to a smaller magnitude, and the field
/// 255 to the infinities and to what is no number.
pub open spec fn exponent_of(bits: FloatBits) -> u32 {
    (bits >> 23) & 0xFF
}

/// The fraction field of the number with the bits `bits`.
pub open spec fn fraction_of(bits: FloatBits) -> u32 {
    bits & 0x7F_FFFF
}

/// Whether the number with the bits `bits` lies in the closed range from
/// zero to one: it is a zero of either sign, or it has no sign and a
/// magnitude below one, or it is one itself.
pub open spec fn in_unit_range(bits: FloatBits) -> bool {
    let zero = exponent_of(bits) == 0 && fraction_of(bits) == 0;
    let below_one = exponent_of(bits) < 127;
    let one = exponent_of(bits) == 127 && fraction_of(bits) == 0;
    zero || (!sign_of(bits) && (below_one || one))
}

/// Numbers without a sign are ordered as their bits are: those from zero
/// to one are the patterns up to that of one. The only other number in the
/// range is the zero with the sign set.
pub proof fn lemma_unit_range_by_bits(bits: FloatBits)
    ensures
        in_unit_range(bits) <==> bits <= ONE_BITS || bits == NEGATIVE_ZERO_BITS,
{
    assert((bits <= 0x3F80_0000u32 || bits == 0x8000_0000u32) == ({
        let zero = (bits >> 23) & 0xFF == 0 && bits & 0x7F_FFFF == 0;
        let below_one = (bits >> 23) & 0xFF < 127;
        let one = (bits >> 23) & 0xFF == 127 && bits & 0x7F_FFFF == 0;
        zero || (!(bits >> 31 == 1) && (below_one || one))
    })) by (bit_vector);
}

/// Whether the number with the bits `bits` lies in the closed range from
/// zero to one.
pub fn is_in_unit_range(bits: FloatBits) -> (inside: bool)
    ensures
        inside == in_unit_range(bits),
{
    proof {
        lemma_unit_range_by_bits(bits);
    }
    bits <= ONE_BITS || bits == NEGATIVE_ZERO_BITS
}

/// A matrix of three rows and four columns, row by row, laid out as the
/// runtime lays out its own.
#[derive(Clone, Copy, Debug, PartialEq, Eq)]
pub struct Matrix3x4(pub [[FloatBits; 4]; 3]);

/// The space in which the runtime measures a pose.
#[derive(Clone, Copy, Debug, PartialEq, Eq, Structural)]
pub enum TrackingUniverseOrigin {
    /// Poses are relative to the seated zero pose.
    TrackingUniverseSeated,
    /// Poses are relative to the center of the play space, on the floor.
    TrackingUniverseStanding,
    /// Poses are in the tracking system's own, uncalibrated space.
    TrackingUniverseRawAndUncalibrated,
}

} // verus!
