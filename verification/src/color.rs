//! Color-depth modes, channel clamping and pixel byte packing.
//!
//! The chip stores one 2-bit color-format code in two different
//! registers (main window and memory); the same mode also fixes how
//! color channels are packed into the 8-bit color registers and into
//! per-pixel write sequences.

use vstd::prelude::*;

verus! {

/// The active color depth of the framebuffer and of every color-emitting
/// operation.
#[derive(Clone, Copy, PartialEq, Eq, Structural, Debug)]
pub enum ColorMode {
    EightBit,
    SixteenBit,
    TwentyFourBit,
}

/// The 2-bit main-window color-format field of register `0x10`
/// (bits 2..=3): `00` = 8-bit, `01` = 16-bit, `10` = 24-bit.
pub open spec fn main_window_mode_bits(mode: ColorMode) -> u8 {
    match mode {
        ColorMode::EightBit => 0b0000,
        ColorMode::SixteenBit => 0b0100,
        ColorMode::TwentyFourBit => 0b1000,
    }
}

/// The 2-bit memory color-format field of register `0x5E` (bits 0..=1),
/// same encoding as the main-window field but positioned at bit 0.
pub open spec fn memory_mode_bits(mode: ColorMode) -> u8 {
    match mode {
        ColorMode::EightBit => 0b00,
        ColorMode::SixteenBit => 0b01,
        ColorMode::TwentyFourBit => 0b10,
    }
}

/// Saturate a channel value to `max`, the largest value representable in
/// the target bit width.
pub open spec fn clamp_chan(v: u8, max: u8) -> u8 {
    if v > max {
        max
    } else {
        v
    }
}

/// Clamping saturates out-of-range values to the maximum, leaves
/// in-range values unchanged, and is therefore idempotent: clamping an
/// already-clamped value returns it as it is.
pub proof fn lemma_clamp_chan(v: u8, max: u8)
    ensures
        v <= max ==> clamp_chan(v, max) == v,
        v > max ==> clamp_chan(v, max) == max,
        clamp_chan(clamp_chan(v, max), max) == clamp_chan(v, max),
{
}

/// How the three channels of a color are packed into the three 8-bit
/// color registers under `mode`: for depths narrower than 24-bit each
/// channel is clamped to its bit width and shifted into the high bits of
/// the register byte.
pub open spec fn packed_channels(mode: ColorMode, r: u8, g: u8, b: u8) -> (u8, u8, u8) {
    match mode {
        ColorMode::EightBit => (
            clamp_chan(r, 0b0000_0111) << 5,
            clamp_chan(g, 0b0000_0111) << 5,
            clamp_chan(b, 0b0000_0011) << 6,
        ),
        ColorMode::SixteenBit => (
            clamp_chan(r, 0b0001_1111) << 3,
            clamp_chan(g, 0b0011_1111) << 2,
            clamp_chan(b, 0b0001_1111) << 3,
        ),
        ColorMode::TwentyFourBit => (r, g, b),
    }
}

/// Clamp and pack three channel values for `mode`; the executable twin
/// of [`packed_channels`].
pub fn clamp_channels(mode: ColorMode, r: u8, g: u8, b: u8) -> (out: (u8, u8, u8))
    ensures
        out == packed_channels(mode, r, g, b),
{
    match mode {
        ColorMode::EightBit => {
            let rc: u8 = if r > 0b0000_0111 { 0b0000_0111 } else { r };
            let gc: u8 = if g > 0b0000_0111 { 0b0000_0111 } else { g };
            let bc: u8 = if b > 0b0000_0011 { 0b0000_0011 } else { b };
            (rc << 5, gc << 5, bc << 6)
        }
        ColorMode::SixteenBit => {
            let rc: u8 = if r > 0b0001_1111 { 0b0001_1111 } else { r };
            let gc: u8 = if g > 0b0011_1111 { 0b0011_1111 } else { g };
            let bc: u8 = if b > 0b0001_1111 { 0b0001_1111 } else { b };
            (rc << 3, gc << 2, bc << 3)
        }
        ColorMode::TwentyFourBit => (r, g, b),
    }
}

/// First byte of a 16-bit (RGB565) pixel write: the blue channel with the
/// low 3 bits of green above it.
pub open spec fn px16_byte0(r: u8, g: u8, b: u8) -> u8 {
    b | (g << 5)
}

/// Second byte of a 16-bit (RGB565) pixel write: the high 3 bits of green
/// with the red channel above them.
pub open spec fn px16_byte1(r: u8, g: u8, b: u8) -> u8 {
    (g >> 3) | (r << 3)
}

} // verus!
