//! Register-level semantics: the bit-field transforms applied by
//! read-modify-write operations and the byte encodings of multi-register
//! values.
//!
//! Everything here is specification vocabulary; the driver's contracts
//! state their emitted traffic in these terms and the executable code is
//! proved against them.

use vstd::prelude::*;
use crate::color::{ColorMode, main_window_mode_bits, memory_mode_bits, packed_channels};
use crate::frames::{Frame, dat_frame, reg_write_frames, sel_frame};

verus! {

/// The value a read-modify-write writes back: the read byte with `set`
/// bits raised and `clear` bits dropped.
pub open spec fn rmw_bits(s: u8, set: u8, clear: u8) -> u8 {
    (s | set) & !clear
}

/// The value a field update writes back: the read byte with the bits of
/// `mask` replaced by `value`.
pub open spec fn field_bits(s: u8, mask: u8, value: u8) -> u8 {
    (s & !mask) | value
}

/// Register `0x12`, bit `0x20`: color-bar test pattern on or off.
pub open spec fn color_bars_bits(s: u8, on: bool) -> u8 {
    if on {
        rmw_bits(s, 0x20, 0x00)
    } else {
        rmw_bits(s, 0x00, 0x20)
    }
}

/// Register `0x12`, bit `0x40`: display on or off.
pub open spec fn display_on_bits(s: u8, on: bool) -> u8 {
    if on {
        rmw_bits(s, 0x40, 0x00)
    } else {
        rmw_bits(s, 0x00, 0x40)
    }
}

/// Register `0x10`, bits `0x0C`: main-window color format.
pub open spec fn main_window_color_bits(s: u8, mode: ColorMode) -> u8 {
    field_bits(s, 0x0C, main_window_mode_bits(mode))
}

/// Register `0x5E`, bits `0x03`: memory color format.
pub open spec fn memory_color_bits(s: u8, mode: ColorMode) -> u8 {
    field_bits(s, 0x03, memory_mode_bits(mode))
}

/// The low byte of a 16-bit value.
pub open spec fn lo8(x: int) -> u8 {
    (x % 256) as u8
}

/// The high byte of a 16-bit value.
pub open spec fn hi8(x: int) -> u8 {
    ((x / 256) % 256) as u8
}

/// Byte 2 of a 32-bit value (bits 16..=23).
pub open spec fn b2(x: int) -> u8 {
    ((x / 65536) % 256) as u8
}

/// Byte 3 of a 32-bit value (bits 24..=31).
pub open spec fn b3(x: int) -> u8 {
    ((x / 16777216) % 256) as u8
}

/// The divided-by-8, minus-one encoding of a horizontal timing value.
pub open spec fn div8_m1(x: u16) -> u8 {
    (x / 8 - 1) as u8
}

/// The remainder byte accompanying [`div8_m1`].
pub open spec fn mod8(x: u16) -> u8 {
    (x % 8) as u8
}

/// The divided-by-8, saturating-minus-one encoding of a horizontal
/// timing value that may be shorter than 8 pixels.
pub open spec fn div8_sat_m1(x: u16) -> u8 {
    (if x / 8 > 0 {
        x / 8 - 1
    } else {
        0
    }) as u8
}

/// The saturating-minus-one encoding of a vertical timing value.
pub open spec fn sat_m1(x: u16) -> u8 {
    (if x > 0 {
        x - 1
    } else {
        0
    }) as u8
}

/// The saturating-minus-one value itself, for encodings that split it
/// into two bytes.
pub open spec fn sat_m1_int(x: u16) -> int {
    if x > 0 {
        x - 1
    } else {
        0
    }
}

/// Traffic of the cursor-position write: registers `0x5F..=0x62`.
pub open spec fn goto_frames(x: u16, y: u16) -> Seq<Frame> {
    reg_write_frames(0x5F, lo8(x as int)) + reg_write_frames(0x60, hi8(x as int))
        + reg_write_frames(0x61, lo8(y as int)) + reg_write_frames(0x62, hi8(y as int))
}

/// Traffic of the active-window write: origin then size, registers
/// `0x56..=0x5D`.
pub open spec fn active_window_frames(x: u16, y: u16, w: u16, h: u16) -> Seq<Frame> {
    reg_write_frames(0x56, lo8(x as int)) + reg_write_frames(0x57, hi8(x as int))
        + reg_write_frames(0x58, lo8(y as int)) + reg_write_frames(0x59, hi8(y as int))
        + reg_write_frames(0x5A, lo8(w as int)) + reg_write_frames(0x5B, hi8(w as int))
        + reg_write_frames(0x5C, lo8(h as int)) + reg_write_frames(0x5D, hi8(h as int))
}

/// Traffic of the line-start (top-left corner) write: registers
/// `0x68..=0x6B`.
pub open spec fn line_start_frames(x: u16, y: u16) -> Seq<Frame> {
    reg_write_frames(0x68, lo8(x as int)) + reg_write_frames(0x69, hi8(x as int))
        + reg_write_frames(0x6A, lo8(y as int)) + reg_write_frames(0x6B, hi8(y as int))
}

/// Traffic of the line-end (bottom-right corner) write: registers
/// `0x6C..=0x6F`.
pub open spec fn line_end_frames(x: u16, y: u16) -> Seq<Frame> {
    reg_write_frames(0x6C, lo8(x as int)) + reg_write_frames(0x6D, hi8(x as int))
        + reg_write_frames(0x6E, lo8(y as int)) + reg_write_frames(0x6F, hi8(y as int))
}

/// Traffic of the main-image setup: base address (`0x20..=0x23`), image
/// width (`0x24..=0x25`), then x and y offsets (`0x26..=0x29`).
pub open spec fn main_image_frames(addr: u32, x: u16, y: u16, w: u16) -> Seq<Frame> {
    reg_write_frames(0x20, lo8(addr as int)) + reg_write_frames(0x21, hi8(addr as int))
        + reg_write_frames(0x22, b2(addr as int)) + reg_write_frames(0x23, b3(addr as int))
        + reg_write_frames(0x24, lo8(w as int)) + reg_write_frames(0x25, hi8(w as int))
        + reg_write_frames(0x26, lo8(x as int)) + reg_write_frames(0x27, hi8(x as int))
        + reg_write_frames(0x28, lo8(y as int)) + reg_write_frames(0x29, hi8(y as int))
}

/// Traffic of the canvas (backing-store) setup: base address
/// (`0x50..=0x53`) then width (`0x54..=0x55`).
pub open spec fn canvas_image_frames(addr: u32, w: u16) -> Seq<Frame> {
    reg_write_frames(0x50, lo8(addr as int)) + reg_write_frames(0x51, hi8(addr as int))
        + reg_write_frames(0x52, b2(addr as int)) + reg_write_frames(0x53, b3(addr as int))
        + reg_write_frames(0x54, lo8(w as int)) + reg_write_frames(0x55, hi8(w as int))
}

/// Traffic of the foreground-color write: registers `0xD2..=0xD4`.
pub open spec fn fg_frames(r: u8, g: u8, b: u8) -> Seq<Frame> {
    reg_write_frames(0xD2, r) + reg_write_frames(0xD3, g) + reg_write_frames(0xD4, b)
}

/// Traffic of the background-color write: registers `0xD5..=0xD7`.
pub open spec fn bg_frames(r: u8, g: u8, b: u8) -> Seq<Frame> {
    reg_write_frames(0xD5, r) + reg_write_frames(0xD6, g) + reg_write_frames(0xD7, b)
}

/// Traffic of a foreground-color write whose channels are first clamped
/// and packed for `mode`.
pub open spec fn fg_mode_frames(mode: ColorMode, r: u8, g: u8, b: u8) -> Seq<Frame> {
    fg_frames(
        packed_channels(mode, r, g, b).0,
        packed_channels(mode, r, g, b).1,
        packed_channels(mode, r, g, b).2,
    )
}

/// Traffic of a background-color write whose channels are first clamped
/// and packed for `mode`.
pub open spec fn bg_mode_frames(mode: ColorMode, r: u8, g: u8, b: u8) -> Seq<Frame> {
    bg_frames(
        packed_channels(mode, r, g, b).0,
        packed_channels(mode, r, g, b).1,
        packed_channels(mode, r, g, b).2,
    )
}

/// Traffic of the PWM timer-1 count-buffer write (`0x8E..=0x8F`).
pub open spec fn timer1_count_frames(v: u16) -> Seq<Frame> {
    reg_write_frames(0x8E, lo8(v as int)) + reg_write_frames(0x8F, hi8(v as int))
}

/// Traffic of the PWM timer-1 compare-buffer write (`0x8C..=0x8D`).
pub open spec fn timer1_compare_frames(v: u16) -> Seq<Frame> {
    reg_write_frames(0x8C, lo8(v as int)) + reg_write_frames(0x8D, hi8(v as int))
}

/// Traffic of the PLL setup: three channel configurations (output
/// divider 2, input divider 5 packed as `0x8A`), the three feedback
/// multipliers (scan clock from the configuration, core and memory
/// clocks at 100), the latch command-pair, then the two bring-up PWM
/// channels set to 100% duty.
pub open spec fn pll_frames(scan_n: u8) -> Seq<Frame> {
    reg_write_frames(0x05, 0x8A) + reg_write_frames(0x07, 0x8A) + reg_write_frames(0x09, 0x8A)
        + reg_write_frames(0x06, scan_n) + reg_write_frames(0x08, 100)
        + reg_write_frames(0x0A, 100) + seq![sel_frame(0x00)] + seq![dat_frame(0x80)]
        + reg_write_frames(0x85, 0x0A) + reg_write_frames(0x88, 0x64)
        + reg_write_frames(0x8A, 0x64) + reg_write_frames(0x8C, 0x64)
        + reg_write_frames(0x8E, 0x64) + reg_write_frames(0x86, 0x33)
}

/// Traffic of the SDRAM register setup (before its ready wait): CAS
/// latency, refresh interval 476 split into two bytes, then the
/// initialization trigger.
pub open spec fn sdram_frames() -> Seq<Frame> {
    reg_write_frames(0xE0, 0x29) + reg_write_frames(0xE1, 0x03) + reg_write_frames(0xE2, 0xDC)
        + reg_write_frames(0xE3, 0x01) + reg_write_frames(0xE4, 0x01)
}

/// Traffic of the width/height write: width as divided-by-8-minus-one
/// plus remainder (`0x14..=0x15`), height minus one as a 16-bit split
/// (`0x1A..=0x1B`).
pub open spec fn width_height_frames(w: u16, h: u16) -> Seq<Frame> {
    reg_write_frames(0x14, div8_m1(w)) + reg_write_frames(0x15, mod8(w))
        + reg_write_frames(0x1A, lo8(h - 1)) + reg_write_frames(0x1B, hi8(h - 1))
}

/// Traffic of the horizontal back-porch write (`0x16..=0x17`): the
/// divided-by-8 value minus one saturates at zero for porches shorter
/// than 8 pixels.
pub open spec fn horiz_non_display_frames(w: u16) -> Seq<Frame> {
    reg_write_frames(0x16, div8_sat_m1(w)) + reg_write_frames(0x17, mod8(w))
}

/// Traffic of the horizontal front-porch write (`0x18`).
pub open spec fn horiz_start_frames(w: u16) -> Seq<Frame> {
    reg_write_frames(0x18, div8_sat_m1(w))
}

/// Traffic of the horizontal sync-pulse-width write (`0x19`).
pub open spec fn horiz_pulse_frames(w: u16) -> Seq<Frame> {
    reg_write_frames(0x19, div8_sat_m1(w))
}

/// Traffic of the vertical back-porch write (`0x1C..=0x1D`): the value
/// minus one, saturating at zero, split into two bytes.
pub open spec fn vert_non_display_frames(v: u16) -> Seq<Frame> {
    reg_write_frames(0x1C, lo8(sat_m1_int(v))) + reg_write_frames(0x1D, hi8(sat_m1_int(v)))
}

/// Traffic of the vertical front-porch write (`0x1E`).
pub open spec fn vert_start_frames(v: u16) -> Seq<Frame> {
    reg_write_frames(0x1E, sat_m1(v))
}

/// Traffic of the vertical sync-pulse-width write (`0x1F`).
pub open spec fn vert_pulse_frames(v: u16) -> Seq<Frame> {
    reg_write_frames(0x1F, sat_m1(v))
}

} // verus!
