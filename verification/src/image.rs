//! The documented power-on-reset image of the WM8978 register file.

use vstd::prelude::*;

verus! {

/// Number of configuration registers the chip exposes.
pub const REG_COUNT: usize = 58;

/// The power-on-reset value of each of the 58 registers, as the chip
/// datasheet documents them.
pub open spec fn default_image() -> Seq<u16> {
    seq![
        0x0000u16, 0x0000, 0x0000, 0x0000, 0x0050, 0x0000, 0x0140, 0x0000,
        0x0000, 0x0000, 0x0000, 0x00FF, 0x00FF, 0x0000, 0x0100, 0x00FF,
        0x00FF, 0x0000, 0x012C, 0x002C, 0x002C, 0x002C, 0x002C, 0x0000,
        0x0032, 0x0000, 0x0000, 0x0000, 0x0000, 0x0000, 0x0000, 0x0000,
        0x0038, 0x000B, 0x0032, 0x0000, 0x0008, 0x000C, 0x0093, 0x00E9,
        0x0000, 0x0000, 0x0000, 0x0000, 0x0003, 0x0010, 0x0010, 0x0100,
        0x0100, 0x0002, 0x0001, 0x0001, 0x0039, 0x0039, 0x0039, 0x0039,
        0x0001, 0x0001,
    ]
}

/// Builds the shadow register file holding the power-on-reset image.
pub fn default_registers() -> (r: Vec<u16>)
    ensures
        r@ == default_image(),
{
    let r: Vec<u16> = vec![
        0x0000u16, 0x0000, 0x0000, 0x0000, 0x0050, 0x0000, 0x0140, 0x0000,
        0x0000, 0x0000, 0x0000, 0x00FF, 0x00FF, 0x0000, 0x0100, 0x00FF,
        0x00FF, 0x0000, 0x012C, 0x002C, 0x002C, 0x002C, 0x002C, 0x0000,
        0x0032, 0x0000, 0x0000, 0x0000, 0x0000, 0x0000, 0x0000, 0x0000,
        0x0038, 0x000B, 0x0032, 0x0000, 0x0008, 0x000C, 0x0093, 0x00E9,
        0x0000, 0x0000, 0x0000, 0x0000, 0x0003, 0x0010, 0x0010, 0x0100,
        0x0100, 0x0002, 0x0001, 0x0001, 0x0039, 0x0039, 0x0039, 0x0039,
        0x0001, 0x0001,
    ];
    proof {
        assert(r@ =~= default_image());
    }
    r
}

} // verus!
