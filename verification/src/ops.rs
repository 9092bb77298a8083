//! Register-level operations: bit-field toggles, color configuration,
//! window and image setup, and the backlight PWM channel.

use vstd::prelude::*;
use crate::bus::{ChipSelect, Error, SpiBus, is_pin_fault};
use crate::color::{ColorMode, clamp_channels};
use crate::driver::{ER5517, Res};
use crate::frames::{
    Frame, ends_exhausted, is_data_read, log_grows, partial_of, poll_partial, poll_trace,
    reg_write_frames, rmw_frames, rmw_partial, sel_frame, dat_frame, recv_of,
    writes_then_poll_partial,
};
use crate::regs::{
    bg_frames, bg_mode_frames, color_bars_bits, display_on_bits, fg_frames, fg_mode_frames,
    field_bits, goto_frames, active_window_frames, canvas_image_frames, line_end_frames,
    line_start_frames, main_image_frames, main_window_color_bits, memory_color_bits, rmw_bits,
    timer1_compare_frames, timer1_count_frames, sat_m1, lo8, hi8,
};

verus! {

/// The traffic a failed color-depth change left behind: cut off inside
/// the memory color-format update, or that complete and cut off inside
/// the main-window color-format update.
pub open spec fn set_color_mode_partial(pre: Seq<Frame>, post: Seq<Frame>, mode: ColorMode) -> bool {
    let base = pre.len() as int;
    &&& log_grows(pre, post)
    &&& post.len() <= pre.len() + 6
    &&& post.len() > pre.len() ==> post[base] == sel_frame(0x5E)
    &&& post.len() > pre.len() + 1 ==> is_data_read(post[base + 1])
    &&& post.len() > pre.len() + 2 ==> post[base + 2] == dat_frame(
        memory_color_bits(recv_of(post[base + 1]), mode),
    )
    &&& post.len() > pre.len() + 3 ==> post[base + 3] == sel_frame(0x10)
    &&& post.len() > pre.len() + 4 ==> is_data_read(post[base + 4])
    &&& post.len() > pre.len() + 5 ==> post[base + 5] == dat_frame(
        main_window_color_bits(recv_of(post[base + 4]), mode),
    )
}

/// The traffic a failed brightness change left behind, cut off at the
/// failing step of its fixed write/read-modify-write sequence.
pub open spec fn brightness_partial(pre: Seq<Frame>, post: Seq<Frame>, compare: u16) -> bool {
    let base = pre.len() as int;
    &&& log_grows(pre, post)
    &&& post.len() <= pre.len() + 19
    &&& post.len() > pre.len() ==> post[base] == sel_frame(0x85)
    &&& post.len() > pre.len() + 1 ==> is_data_read(post[base + 1])
    &&& post.len() > pre.len() + 2 ==> post[base + 2] == dat_frame(
        rmw_bits(recv_of(post[base + 1]), 0x08, 0x04),
    )
    &&& post.len() > pre.len() + 3 ==> post[base + 3] == sel_frame(0x84)
    &&& post.len() > pre.len() + 4 ==> post[base + 4] == dat_frame(19)
    &&& post.len() > pre.len() + 5 ==> post[base + 5] == sel_frame(0x85)
    &&& post.len() > pre.len() + 6 ==> is_data_read(post[base + 6])
    &&& post.len() > pre.len() + 7 ==> post[base + 7] == dat_frame(
        rmw_bits(recv_of(post[base + 6]), 0x00, 0xC0),
    )
    &&& post.len() > pre.len() + 8 ==> post[base + 8] == sel_frame(0x8E)
    &&& post.len() > pre.len() + 9 ==> post[base + 9] == dat_frame(100)
    &&& post.len() > pre.len() + 10 ==> post[base + 10] == sel_frame(0x8F)
    &&& post.len() > pre.len() + 11 ==> post[base + 11] == dat_frame(0)
    &&& post.len() > pre.len() + 12 ==> post[base + 12] == sel_frame(0x8C)
    &&& post.len() > pre.len() + 13 ==> post[base + 13] == dat_frame(lo8(compare as int))
    &&& post.len() > pre.len() + 14 ==> post[base + 14] == sel_frame(0x8D)
    &&& post.len() > pre.len() + 15 ==> post[base + 15] == dat_frame(hi8(compare as int))
    &&& post.len() > pre.len() + 16 ==> post[base + 16] == sel_frame(0x86)
    &&& post.len() > pre.len() + 17 ==> is_data_read(post[base + 17])
    &&& post.len() > pre.len() + 18 ==> post[base + 18] == dat_frame(
        rmw_bits(recv_of(post[base + 17]), 0x10, 0x00),
    )
}

impl<SPI: SpiBus, CS: ChipSelect> ER5517<SPI, CS> {
    /// Toggle the color-bar test pattern: read-modify-write of bit
    /// `0x20` in register `0x12`, preserving the other bits.
    pub fn color_bars(&mut self, on: bool) -> (r: Res<(), SPI, CS>)
        ensures
            r is Ok ==> exists|s: u8|
                final(self).emitted(old(self), #[trigger] rmw_frames(0x12, s, color_bars_bits(s, on))),
            r is Err ==> final(self).err_step(old(self)),
            r is Err ==> rmw_partial(
                old(self).bus_log(),
                final(self).bus_log(),
                0x12,
                |s: u8| color_bars_bits(s, on),
            ),
            !(r matches Err(Error::NotReady)),
            !is_pin_fault(r) ==> final(self).cs_released(old(self)),
    {
        let ghost pre = *old(self);
        let r = if on {
            self.rmw_set_clear(0x12, 0x20, 0x00)
        } else {
            self.rmw_set_clear(0x12, 0x00, 0x20)
        };
        proof {
            if r is Ok {
                if on {
                    let s = choose|s: u8|
                        self.emitted(&pre, rmw_frames(0x12, s, rmw_bits(s, 0x20, 0x00)));
                    assert(self.emitted(&pre, rmw_frames(0x12, s, color_bars_bits(s, on))));
                } else {
                    let s = choose|s: u8|
                        self.emitted(&pre, rmw_frames(0x12, s, rmw_bits(s, 0x00, 0x20)));
                    assert(self.emitted(&pre, rmw_frames(0x12, s, color_bars_bits(s, on))));
                }
            }
        }
        r
    }

    /// Switch the display on or off: read-modify-write of bit `0x40` in
    /// register `0x12`, preserving the other bits.
    pub fn on(&mut self, on: bool) -> (r: Res<(), SPI, CS>)
        ensures
            r is Ok ==> exists|s: u8|
                final(self).emitted(old(self), #[trigger] rmw_frames(0x12, s, display_on_bits(s, on))),
            r is Err ==> final(self).err_step(old(self)),
                        r is Ok ==> final(self).bus_log().len() == old(self).bus_log().len() + 3
                && rmw_partial(
                old(self).bus_log(),
                final(self).bus_log(),
                0x12,
                |s: u8| display_on_bits(s, on),
            ),
            r is Err ==> rmw_partial(
                old(self).bus_log(),
                final(self).bus_log(),
                0x12,
                |s: u8| display_on_bits(s, on),
            ),
            !(r matches Err(Error::NotReady)),
            !is_pin_fault(r) ==> final(self).cs_released(old(self)),
    {
        let ghost pre = *old(self);
        let r = if on {
            self.rmw_set_clear(0x12, 0x40, 0x00)
        } else {
            self.rmw_set_clear(0x12, 0x00, 0x40)
        };
        proof {
            if r is Ok {
                if on {
                    let s = choose|s: u8|
                        self.emitted(&pre, rmw_frames(0x12, s, rmw_bits(s, 0x40, 0x00)));
                    assert(self.emitted(&pre, rmw_frames(0x12, s, display_on_bits(s, on))));
                } else {
                    let s = choose|s: u8|
                        self.emitted(&pre, rmw_frames(0x12, s, rmw_bits(s, 0x00, 0x40)));
                    assert(self.emitted(&pre, rmw_frames(0x12, s, display_on_bits(s, on))));
                }
            }
        }
        r
    }

    /// Set the main-window color-format field (bits `0x0C` of register
    /// `0x10`) to `mode`, preserving the display-on bit and the rest of
    /// the register.
    pub fn select_main_window_color_mode(&mut self, mode: ColorMode) -> (r: Res<(), SPI, CS>)
        ensures
            r is Ok ==> exists|s: u8|
                final(self).emitted(
                    old(self),
                    #[trigger] rmw_frames(0x10, s, main_window_color_bits(s, mode)),
                ),
            r is Err ==> final(self).err_step(old(self)),
                        r is Ok ==> final(self).bus_log().len() == old(self).bus_log().len() + 3
                && rmw_partial(
                old(self).bus_log(),
                final(self).bus_log(),
                0x10,
                |s: u8| main_window_color_bits(s, mode),
            ),
            r is Err ==> rmw_partial(
                old(self).bus_log(),
                final(self).bus_log(),
                0x10,
                |s: u8| main_window_color_bits(s, mode),
            ),
            !(r matches Err(Error::NotReady)),
            !is_pin_fault(r) ==> final(self).cs_released(old(self)),
    {
        let ghost pre = *old(self);
        let bits: u8 = match mode {
            ColorMode::EightBit => 0b0000,
            ColorMode::SixteenBit => 0b0100,
            ColorMode::TwentyFourBit => 0b1000,
        };
        let r = self.rmw_field(0x10, 0x0C, bits);
        proof {
            if r is Ok {
                let s = choose|s: u8|
                    self.emitted(&pre, rmw_frames(0x10, s, field_bits(s, 0x0C, bits)));
                assert(self.emitted(&pre, rmw_frames(0x10, s, main_window_color_bits(s, mode))));
            }
        }
        r
    }

    /// Set the memory color-format field (bits `0x03` of register
    /// `0x5E`) to `mode`, preserving the rest of the register.
    pub fn memory_color_mode(&mut self, mode: ColorMode) -> (r: Res<(), SPI, CS>)
        ensures
            r is Ok ==> exists|s: u8|
                final(self).emitted(
                    old(self),
                    #[trigger] rmw_frames(0x5E, s, memory_color_bits(s, mode)),
                ),
            r is Err ==> final(self).err_step(old(self)),
                        r is Ok ==> final(self).bus_log().len() == old(self).bus_log().len() + 3
                && rmw_partial(
                old(self).bus_log(),
                final(self).bus_log(),
                0x5E,
                |s: u8| memory_color_bits(s, mode),
            ),
            r is Err ==> rmw_partial(
                old(self).bus_log(),
                final(self).bus_log(),
                0x5E,
                |s: u8| memory_color_bits(s, mode),
            ),
            !(r matches Err(Error::NotReady)),
            !is_pin_fault(r) ==> final(self).cs_released(old(self)),
    {
        let ghost pre = *old(self);
        let bits: u8 = match mode {
            ColorMode::EightBit => 0b00,
            ColorMode::SixteenBit => 0b01,
            ColorMode::TwentyFourBit => 0b10,
        };
        let r = self.rmw_field(0x5E, 0x03, bits);
        proof {
            if r is Ok {
                let s = choose|s: u8|
                    self.emitted(&pre, rmw_frames(0x5E, s, field_bits(s, 0x03, bits)));
                assert(self.emitted(&pre, rmw_frames(0x5E, s, memory_color_bits(s, mode))));
            }
        }
        r
    }

    /// Change the active color depth.  When `mode` is already active
    /// this is a complete no-op: no register write is performed and the
    /// handle is unchanged.  Otherwise the memory color-format register
    /// and the main-window color-format register are updated, in that
    /// order, and the new mode is recorded.
    pub fn set_color_mode(&mut self, mode: ColorMode) -> (r: Res<(), SPI, CS>)
        ensures
            old(self).mode() == mode ==> r is Ok && *final(self) == *old(self),
            r is Ok && old(self).mode() != mode ==> exists|s1: u8, s2: u8|
                #![trigger rmw_frames(0x5E, s1, memory_color_bits(s1, mode)),
                    rmw_frames(0x10, s2, main_window_color_bits(s2, mode))]
                {
                    &&& final(self).bus_log() == old(self).bus_log() + rmw_frames(
                        0x5E,
                        s1,
                        memory_color_bits(s1, mode),
                    ) + rmw_frames(0x10, s2, main_window_color_bits(s2, mode))
                    &&& final(self).cs_released(old(self))
                    &&& final(self).mode() == mode
                    &&& final(self).cfg() == old(self).cfg()
                },
            r is Err ==> final(self).err_step(old(self)),
            r is Err ==> set_color_mode_partial(old(self).bus_log(), final(self).bus_log(), mode),
            !(r matches Err(Error::NotReady)),
            !is_pin_fault(r) ==> final(self).cs_released(old(self)),
    {
        let ghost pre = *old(self);
        if !self.mode_is(mode) {
            self.memory_color_mode(mode)?;
            let ghost mid = *self;
            self.select_main_window_color_mode(mode)?;
            let ghost fin = *self;
            self.set_mode_field(mode);
            proof {
                let s1 = choose|s: u8|
                    mid.emitted(&pre, rmw_frames(0x5E, s, memory_color_bits(s, mode)));
                let s2 = choose|s: u8|
                    fin.emitted(&mid, rmw_frames(0x10, s, main_window_color_bits(s, mode)));
                assert(self.bus_log() == pre.bus_log() + rmw_frames(
                    0x5E,
                    s1,
                    memory_color_bits(s1, mode),
                ) + rmw_frames(0x10, s2, main_window_color_bits(s2, mode)));
            }
        }
        Ok(())
    }

    /// Write the foreground color registers `0xD2..=0xD4` with the three
    /// channel bytes as given.
    pub fn fg_color(&mut self, r: u8, g: u8, b: u8) -> (res: Res<(), SPI, CS>)
        ensures
            res is Ok ==> final(self).emitted(old(self), fg_frames(r, g, b)),
            res is Err ==> final(self).err_step(old(self)),
            res is Err ==> partial_of(old(self).bus_log(), final(self).bus_log(), fg_frames(r, g, b)),
            !(res matches Err(Error::NotReady)),
            !is_pin_fault(res) ==> final(self).cs_released(old(self)),
    {
        let ghost pre = *old(self);
        self.register_write(0xD2, r)?;
        self.register_write(0xD3, g)?;
        self.register_write(0xD4, b)?;
        proof {
            assert(self.bus_log() =~= pre.bus_log() + fg_frames(r, g, b));
        }
        Ok(())
    }

    /// Write the background color registers `0xD5..=0xD7` with the three
    /// channel bytes as given.
    pub fn bg_color(&mut self, r: u8, g: u8, b: u8) -> (res: Res<(), SPI, CS>)
        ensures
            res is Ok ==> final(self).emitted(old(self), bg_frames(r, g, b)),
            res is Err ==> final(self).err_step(old(self)),
            res is Err ==> partial_of(old(self).bus_log(), final(self).bus_log(), bg_frames(r, g, b)),
            !(res matches Err(Error::NotReady)),
            !is_pin_fault(res) ==> final(self).cs_released(old(self)),
    {
        let ghost pre = *old(self);
        self.register_write(0xD5, r)?;
        self.register_write(0xD6, g)?;
        self.register_write(0xD7, b)?;
        proof {
            assert(self.bus_log() =~= pre.bus_log() + bg_frames(r, g, b));
        }
        Ok(())
    }

    /// Write the foreground color for an explicit color depth: each
    /// channel is clamped to the mode's bit width and shifted into the
    /// high bits before the registers are written.
    pub fn fg_color_mode(&mut self, mode: ColorMode, r: u8, g: u8, b: u8) -> (res: Res<
        (),
        SPI,
        CS,
    >)
        ensures
            res is Ok ==> final(self).emitted(old(self), fg_mode_frames(mode, r, g, b)),
            res is Err ==> final(self).err_step(old(self)),
            res is Err ==> partial_of(
                old(self).bus_log(),
                final(self).bus_log(),
                fg_mode_frames(mode, r, g, b),
            ),
            !(res matches Err(Error::NotReady)),
            !is_pin_fault(res) ==> final(self).cs_released(old(self)),
    {
        let (pr, pg, pb) = clamp_channels(mode, r, g, b);
        self.fg_color(pr, pg, pb)
    }

    /// Write the background color for an explicit color depth, clamped
    /// and packed as in [`Self::fg_color_mode`].
    pub fn bg_color_mode(&mut self, mode: ColorMode, r: u8, g: u8, b: u8) -> (res: Res<
        (),
        SPI,
        CS,
    >)
        ensures
            res is Ok ==> final(self).emitted(old(self), bg_mode_frames(mode, r, g, b)),
            res is Err ==> final(self).err_step(old(self)),
            res is Err ==> partial_of(
                old(self).bus_log(),
                final(self).bus_log(),
                bg_mode_frames(mode, r, g, b),
            ),
            !(res matches Err(Error::NotReady)),
            !is_pin_fault(res) ==> final(self).cs_released(old(self)),
    {
        let (pr, pg, pb) = clamp_channels(mode, r, g, b);
        self.bg_color(pr, pg, pb)
    }

    /// Configure the active window: origin then size, registers
    /// `0x56..=0x5D`, each as a 16-bit split.  Window sizes are raw pixel
    /// counts, unlike the divided porch timings.
    pub fn active_window(&mut self, x: u16, y: u16, w: u16, h: u16) -> (r: Res<(), SPI, CS>)
        ensures
            r is Ok ==> final(self).emitted(old(self), active_window_frames(x, y, w, h)),
            r is Err ==> final(self).err_step(old(self)),
            r is Err ==> partial_of(
                old(self).bus_log(),
                final(self).bus_log(),
                active_window_frames(x, y, w, h),
            ),
            !(r matches Err(Error::NotReady)),
            !is_pin_fault(r) ==> final(self).cs_released(old(self)),
    {
        let ghost pre = *old(self);
        self.register_write(0x56, (x % 256) as u8)?;
        self.register_write(0x57, (x / 256) as u8)?;
        self.register_write(0x58, (y % 256) as u8)?;
        self.register_write(0x59, (y / 256) as u8)?;
        self.register_write(0x5A, (w % 256) as u8)?;
        self.register_write(0x5B, (w / 256) as u8)?;
        self.register_write(0x5C, (h % 256) as u8)?;
        self.register_write(0x5D, (h / 256) as u8)?;
        proof {
            assert(self.bus_log() =~= pre.bus_log() + active_window_frames(x, y, w, h));
        }
        Ok(())
    }

    /// Write the top-left corner of a hardware line/fill operation:
    /// registers `0x68..=0x6B`.
    pub fn line_start(&mut self, x: u16, y: u16) -> (r: Res<(), SPI, CS>)
        ensures
            r is Ok ==> final(self).emitted(old(self), line_start_frames(x, y)),
            r is Err ==> final(self).err_step(old(self)),
            r is Err ==> partial_of(
                old(self).bus_log(),
                final(self).bus_log(),
                line_start_frames(x, y),
            ),
            !(r matches Err(Error::NotReady)),
            !is_pin_fault(r) ==> final(self).cs_released(old(self)),
    {
        let ghost pre = *old(self);
        self.register_write(0x68, (x % 256) as u8)?;
        self.register_write(0x69, (x / 256) as u8)?;
        self.register_write(0x6A, (y % 256) as u8)?;
        self.register_write(0x6B, (y / 256) as u8)?;
        proof {
            assert(self.bus_log() =~= pre.bus_log() + line_start_frames(x, y));
        }
        Ok(())
    }

    /// Write the bottom-right corner of a hardware line/fill operation:
    /// registers `0x6C..=0x6F`.
    pub fn line_end(&mut self, x: u16, y: u16) -> (r: Res<(), SPI, CS>)
        ensures
            r is Ok ==> final(self).emitted(old(self), line_end_frames(x, y)),
            r is Err ==> final(self).err_step(old(self)),
            r is Err ==> partial_of(
                old(self).bus_log(),
                final(self).bus_log(),
                line_end_frames(x, y),
            ),
            !(r matches Err(Error::NotReady)),
            !is_pin_fault(r) ==> final(self).cs_released(old(self)),
    {
        let ghost pre = *old(self);
        self.register_write(0x6C, (x % 256) as u8)?;
        self.register_write(0x6D, (x / 256) as u8)?;
        self.register_write(0x6E, (y % 256) as u8)?;
        self.register_write(0x6F, (y / 256) as u8)?;
        proof {
            assert(self.bus_log() =~= pre.bus_log() + line_end_frames(x, y));
        }
        Ok(())
    }

    /// Move the pixel write cursor: registers `0x5F..=0x62`.
    pub fn goto_pixel(&mut self, x: u16, y: u16) -> (r: Res<(), SPI, CS>)
        ensures
            r is Ok ==> final(self).emitted(old(self), goto_frames(x, y)),
            r is Err ==> final(self).err_step(old(self)),
            r is Err ==> partial_of(old(self).bus_log(), final(self).bus_log(), goto_frames(x, y)),
            !(r matches Err(Error::NotReady)),
            !is_pin_fault(r) ==> final(self).cs_released(old(self)),
    {
        let ghost pre = *old(self);
        self.register_write(0x5F, (x % 256) as u8)?;
        self.register_write(0x60, (x / 256) as u8)?;
        self.register_write(0x61, (y % 256) as u8)?;
        self.register_write(0x62, (y / 256) as u8)?;
        proof {
            assert(self.bus_log() =~= pre.bus_log() + goto_frames(x, y));
        }
        Ok(())
    }

    /// Configure the main (displayed) image: 32-bit base address, image
    /// width, then x/y offsets, registers `0x20..=0x29`.
    pub fn main_image(&mut self, addr: u32, x: u16, y: u16, w: u16) -> (r: Res<(), SPI, CS>)
        ensures
            r is Ok ==> final(self).emitted(old(self), main_image_frames(addr, x, y, w)),
            r is Err ==> final(self).err_step(old(self)),
            r is Err ==> partial_of(
                old(self).bus_log(),
                final(self).bus_log(),
                main_image_frames(addr, x, y, w),
            ),
            !(r matches Err(Error::NotReady)),
            !is_pin_fault(r) ==> final(self).cs_released(old(self)),
    {
        let ghost pre = *old(self);
        self.register_write(0x20, (addr % 256) as u8)?;
        self.register_write(0x21, ((addr / 256) % 256) as u8)?;
        self.register_write(0x22, ((addr / 65536) % 256) as u8)?;
        self.register_write(0x23, ((addr / 16777216) % 256) as u8)?;
        self.register_write(0x24, (w % 256) as u8)?;
        self.register_write(0x25, (w / 256) as u8)?;
        self.register_write(0x26, (x % 256) as u8)?;
        self.register_write(0x27, (x / 256) as u8)?;
        self.register_write(0x28, (y % 256) as u8)?;
        self.register_write(0x29, (y / 256) as u8)?;
        proof {
            assert(self.bus_log() =~= pre.bus_log() + main_image_frames(addr, x, y, w));
        }
        Ok(())
    }

    /// Configure the canvas (backing-store) image: 32-bit base address
    /// then width, registers `0x50..=0x55`.
    pub fn canvas_image(&mut self, addr: u32, w: u16) -> (r: Res<(), SPI, CS>)
        ensures
            r is Ok ==> final(self).emitted(old(self), canvas_image_frames(addr, w)),
            r is Err ==> final(self).err_step(old(self)),
            r is Err ==> partial_of(
                old(self).bus_log(),
                final(self).bus_log(),
                canvas_image_frames(addr, w),
            ),
            !(r matches Err(Error::NotReady)),
            !is_pin_fault(r) ==> final(self).cs_released(old(self)),
    {
        let ghost pre = *old(self);
        self.register_write(0x50, (addr % 256) as u8)?;
        self.register_write(0x51, ((addr / 256) % 256) as u8)?;
        self.register_write(0x52, ((addr / 65536) % 256) as u8)?;
        self.register_write(0x53, ((addr / 16777216) % 256) as u8)?;
        self.register_write(0x54, (w % 256) as u8)?;
        self.register_write(0x55, (w / 256) as u8)?;
        proof {
            assert(self.bus_log() =~= pre.bus_log() + canvas_image_frames(addr, w));
        }
        Ok(())
    }

    /// Trigger the hardware rectangle fill (command `0xE0` to register
    /// `0x76`) and block until the draw engine reports idle.
    pub fn rect_fill(&mut self) -> (r: Res<(), SPI, CS>)
        ensures
            r is Ok ==> exists|p: Seq<Frame>|
                final(self).emitted(old(self), reg_write_frames(0x76, 0xE0) + p)
                    && #[trigger] poll_trace(p, 0x08, true),
            r is Err ==> final(self).err_step(old(self)),
            r is Err ==> writes_then_poll_partial(
                old(self).bus_log(),
                final(self).bus_log(),
                reg_write_frames(0x76, 0xE0),
                0x08,
                true,
            ),
            r matches Err(Error::NotReady) ==> ends_exhausted(
                final(self).bus_log(),
                0x08,
                true,
                old(self).cfg().poll_limit,
            ),
            !is_pin_fault(r) ==> final(self).cs_released(old(self)),
    {
        let ghost pre = *old(self);
        self.register_write(0x76, 0xE0)?;
        let ghost mid = *self;
        self.busy_draw()?;
        proof {
            let p = choose|p: Seq<Frame>|
                self.emitted(&mid, p) && #[trigger] poll_trace(p, 0x08, true);
            assert(self.bus_log() =~= pre.bus_log() + (reg_write_frames(0x76, 0xE0) + p));
        }
        Ok(())
    }

    /// Set the PWM prescaler (register `0x84`) to `v - 1`, saturating at
    /// zero.
    fn set_pwm_prescaler_1_to_256(&mut self, v: u16) -> (r: Res<(), SPI, CS>)
        requires
            v <= 256,
        ensures
            r is Ok ==> final(self).emitted(old(self), reg_write_frames(0x84, sat_m1(v))),
            r is Err ==> final(self).err_step(old(self)),
            r is Err ==> partial_of(
                old(self).bus_log(),
                final(self).bus_log(),
                reg_write_frames(0x84, sat_m1(v)),
            ),
            !(r matches Err(Error::NotReady)),
            !is_pin_fault(r) ==> final(self).cs_released(old(self)),
    {
        let e: u16 = if v > 0 {
            v - 1
        } else {
            0
        };
        self.register_write(0x84, e as u8)
    }

    /// Select an undivided clock for PWM timer 1: clear the MUX field
    /// (bits `0xC0`) of register `0x85`.
    fn select_pwm1_clock_div_by_1(&mut self) -> (r: Res<(), SPI, CS>)
        ensures
            r is Ok ==> exists|s: u8|
                final(self).emitted(old(self), #[trigger] rmw_frames(0x85, s, rmw_bits(s, 0x00, 0xC0))),
            r is Err ==> final(self).err_step(old(self)),
            r is Err ==> rmw_partial(
                old(self).bus_log(),
                final(self).bus_log(),
                0x85,
                |s: u8| rmw_bits(s, 0x00, 0xC0),
            ),
            !(r matches Err(Error::NotReady)),
            !is_pin_fault(r) ==> final(self).cs_released(old(self)),
    {
        self.rmw_set_clear(0x85, 0x00, 0xC0)
    }

    /// Route timer 1 to the PWM output: set bit `0x08` and clear bit
    /// `0x04` of register `0x85`.
    fn select_pwm1(&mut self) -> (r: Res<(), SPI, CS>)
        ensures
            r is Ok ==> exists|s: u8|
                final(self).emitted(old(self), #[trigger] rmw_frames(0x85, s, rmw_bits(s, 0x08, 0x04))),
            r is Err ==> final(self).err_step(old(self)),
            r is Err ==> rmw_partial(
                old(self).bus_log(),
                final(self).bus_log(),
                0x85,
                |s: u8| rmw_bits(s, 0x08, 0x04),
            ),
            !(r matches Err(Error::NotReady)),
            !is_pin_fault(r) ==> final(self).cs_released(old(self)),
    {
        self.rmw_set_clear(0x85, 0x08, 0x04)
    }

    /// Start PWM timer 1: set bit `0x10` of register `0x86`.
    fn start_pwm1(&mut self) -> (r: Res<(), SPI, CS>)
        ensures
            r is Ok ==> exists|s: u8|
                final(self).emitted(old(self), #[trigger] rmw_frames(0x86, s, rmw_bits(s, 0x10, 0x00))),
            r is Err ==> final(self).err_step(old(self)),
            r is Err ==> rmw_partial(
                old(self).bus_log(),
                final(self).bus_log(),
                0x86,
                |s: u8| rmw_bits(s, 0x10, 0x00),
            ),
            !(r matches Err(Error::NotReady)),
            !is_pin_fault(r) ==> final(self).cs_released(old(self)),
    {
        self.rmw_set_clear(0x86, 0x10, 0x00)
    }

    /// Write the 16-bit PWM timer-1 count buffer, registers
    /// `0x8E..=0x8F`.
    fn set_timer1_count_buffer(&mut self, v: u16) -> (r: Res<(), SPI, CS>)
        ensures
            r is Ok ==> final(self).emitted(old(self), timer1_count_frames(v)),
            r is Err ==> final(self).err_step(old(self)),
            r is Err ==> partial_of(
                old(self).bus_log(),
                final(self).bus_log(),
                timer1_count_frames(v),
            ),
            !(r matches Err(Error::NotReady)),
            !is_pin_fault(r) ==> final(self).cs_released(old(self)),
    {
        let ghost pre = *old(self);
        self.register_write(0x8E, (v % 256) as u8)?;
        self.register_write(0x8F, (v / 256) as u8)?;
        proof {
            assert(self.bus_log() =~= pre.bus_log() + timer1_count_frames(v));
        }
        Ok(())
    }

    /// Write the 16-bit PWM timer-1 compare buffer, registers
    /// `0x8C..=0x8D`.
    fn set_timer1_compare_buffer(&mut self, v: u16) -> (r: Res<(), SPI, CS>)
        ensures
            r is Ok ==> final(self).emitted(old(self), timer1_compare_frames(v)),
            r is Err ==> final(self).err_step(old(self)),
            r is Err ==> partial_of(
                old(self).bus_log(),
                final(self).bus_log(),
                timer1_compare_frames(v),
            ),
            !(r matches Err(Error::NotReady)),
            !is_pin_fault(r) ==> final(self).cs_released(old(self)),
    {
        let ghost pre = *old(self);
        self.register_write(0x8C, (v % 256) as u8)?;
        self.register_write(0x8D, (v / 256) as u8)?;
        proof {
            assert(self.bus_log() =~= pre.bus_log() + timer1_compare_frames(v));
        }
        Ok(())
    }

    /// Configure the backlight PWM channel for a `compare / 100` duty
    /// cycle: route timer 1 to the output, prescale by 20, select the
    /// undivided clock, set a 100-unit period, load `compare`, and start
    /// the channel.
    pub fn set_brightness(&mut self, compare: u16) -> (r: Res<(), SPI, CS>)
        ensures
            r is Ok ==> exists|s1: u8, s2: u8, s3: u8|
                #![trigger rmw_frames(0x85, s1, rmw_bits(s1, 0x08, 0x04)),
                    rmw_frames(0x85, s2, rmw_bits(s2, 0x00, 0xC0)),
                    rmw_frames(0x86, s3, rmw_bits(s3, 0x10, 0x00))]
                final(self).emitted(
                    old(self),
                    rmw_frames(0x85, s1, rmw_bits(s1, 0x08, 0x04)) + reg_write_frames(0x84, 19)
                        + rmw_frames(0x85, s2, rmw_bits(s2, 0x00, 0xC0))
                        + timer1_count_frames(100) + timer1_compare_frames(compare)
                        + rmw_frames(0x86, s3, rmw_bits(s3, 0x10, 0x00)),
                ),
            r is Err ==> final(self).err_step(old(self)),
            r is Err ==> brightness_partial(old(self).bus_log(), final(self).bus_log(), compare),
            !(r matches Err(Error::NotReady)),
            !is_pin_fault(r) ==> final(self).cs_released(old(self)),
    {
        let ghost pre = *old(self);
        self.select_pwm1()?;
        let ghost g1 = *self;
        self.set_pwm_prescaler_1_to_256(20)?;
        let ghost g2 = *self;
        self.select_pwm1_clock_div_by_1()?;
        let ghost g3 = *self;
        self.set_timer1_count_buffer(100)?;
        let ghost g4 = *self;
        self.set_timer1_compare_buffer(compare)?;
        let ghost g5 = *self;
        self.start_pwm1()?;
        proof {
            let s1 = choose|s: u8| g1.emitted(&pre, rmw_frames(0x85, s, rmw_bits(s, 0x08, 0x04)));
            let s2 = choose|s: u8| g3.emitted(&g2, rmw_frames(0x85, s, rmw_bits(s, 0x00, 0xC0)));
            let s3 = choose|s: u8|
                self.emitted(&g5, rmw_frames(0x86, s, rmw_bits(s, 0x10, 0x00)));
            assert(self.bus_log() =~= pre.bus_log() + (rmw_frames(0x85, s1, rmw_bits(s1, 0x08, 0x04))
                + reg_write_frames(0x84, 19) + rmw_frames(0x85, s2, rmw_bits(s2, 0x00, 0xC0))
                + timer1_count_frames(100) + timer1_compare_frames(compare)
                + rmw_frames(0x86, s3, rmw_bits(s3, 0x10, 0x00))));
        }
        Ok(())
    }
}

} // verus!
