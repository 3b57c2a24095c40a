//! The per-camera tags that switch the overlay on and tune it.

use vstd::prelude::*;

verus! {

/// Which prepass buffer a camera shows in place of its normal view.
///
/// A camera without this tag shows its normal view.
#[derive(Debug, Clone, Copy, PartialEq, Eq, Hash, Structural)]
pub enum ShowPrepass {
    Depth,
    Normals,
    MotionVectors,
}

impl ShowPrepass {
    /// The position of the mode in the fixed order depth, normals, motion vectors.
    pub open spec fn ordinal(self) -> nat {
        match self {
            ShowPrepass::Depth => 0,
            ShowPrepass::Normals => 1,
            ShowPrepass::MotionVectors => 2,
        }
    }

    /// The position of the mode in the fixed order depth, normals, motion vectors.
    pub fn index(self) -> (i: u8)
        ensures
            i == self.ordinal(),
    {
        match self {
            ShowPrepass::Depth => 0,
            ShowPrepass::Normals => 1,
            ShowPrepass::MotionVectors => 2,
        }
    }

    /// The shader define that selects this mode's branch of the fragment shader.
    pub open spec fn define(self) -> Seq<char> {
        match self {
            ShowPrepass::Depth => "SHOW_DEPTH"@,
            ShowPrepass::Normals => "SHOW_NORMALS"@,
            ShowPrepass::MotionVectors => "SHOW_MOTION_VECTORS"@,
        }
    }

    /// The shader define that selects this mode's branch of the fragment shader.
    pub fn shader_def(self) -> (def: &'static str)
        ensures
            def@ == self.define(),
    {
        match self {
            ShowPrepass::Depth => "SHOW_DEPTH",
            ShowPrepass::Normals => "SHOW_NORMALS",
            ShowPrepass::MotionVectors => "SHOW_MOTION_VECTORS",
        }
    }
}

/// The bit pattern of the single-precision number one.
pub const ONE_BITS: u32 = 0x3F80_0000;

/// The exponent applied to the depth buffer before it is shown, held as the
/// IEEE 754 bit pattern of a single-precision number.
///
/// A camera without this tag uses the exponent one.
#[derive(Debug, Clone, Copy, PartialEq, Eq, Structural)]
pub struct ShowPrepassDepthPower(pub u32);

/// The bit pattern of the exponent a camera uses: its own where it carries
/// the tag, that of one where it does not.
pub open spec fn depth_power_bits(depth_power: Option<ShowPrepassDepthPower>) -> u32 {
    match depth_power {
        Some(power) => power.0,
        None => ONE_BITS,
    }
}

} // verus!
