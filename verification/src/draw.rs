//! Pixel draw translation: single pixels through the write FIFO and
//! hardware-accelerated rectangle fills.

use vstd::prelude::*;
use crate::bus::{ChipSelect, Error, SpiBus, is_pin_fault};
use crate::color::{ColorMode, clamp_channels, px16_byte0, px16_byte1};
use crate::config::{Rect, clip_x0, clip_x1, clip_y0, clip_y1, rect_visible};
use crate::driver::{ER5517, Res};
use crate::frames::{
    Frame, dat_frame, ends_exhausted, partial_of, poll_partial, poll_trace, reg_write_frames,
    sel_frame, writes_then_poll_partial,
};
use crate::regs::{fg_mode_frames, goto_frames, line_end_frames, line_start_frames};

verus! {

/// The deterministic head of a pixel write: cursor, pixel-write
/// command select, and the first data byte for the active mode.
pub open spec fn px_head(x: u16, y: u16, b0: u8) -> Seq<Frame> {
    goto_frames(x, y) + seq![sel_frame(0x04)] + seq![dat_frame(b0)]
}

/// The traffic a failed in-bounds pixel write left behind for a
/// two-byte (RGB565) pixel: cut off inside the head, inside the first
/// FIFO wait, inside the second byte, or inside the second FIFO wait.
pub open spec fn px2_partial(
    pre: Seq<Frame>,
    post: Seq<Frame>,
    x: u16,
    y: u16,
    b0: u8,
    b1: u8,
) -> bool {
    ||| partial_of(pre, post, px_head(x, y, b0))
    ||| poll_partial(pre + px_head(x, y, b0), post, 0x80, true)
    ||| exists|q1: Seq<Frame>|
        #![trigger poll_trace(q1, 0x80, true)]
        poll_trace(q1, 0x80, true) && {
            let l = pre + px_head(x, y, b0) + q1;
            ||| partial_of(l, post, seq![dat_frame(b1)])
            ||| poll_partial(l + seq![dat_frame(b1)], post, 0x80, true)
        }
}

/// The traffic a failed in-bounds pixel write left behind for a
/// three-byte (RGB888) pixel, cut off at the failing byte or FIFO wait.
pub open spec fn px3_partial(
    pre: Seq<Frame>,
    post: Seq<Frame>,
    x: u16,
    y: u16,
    b0: u8,
    b1: u8,
    b2: u8,
) -> bool {
    ||| partial_of(pre, post, px_head(x, y, b0))
    ||| poll_partial(pre + px_head(x, y, b0), post, 0x80, true)
    ||| exists|q1: Seq<Frame>|
        #![trigger poll_trace(q1, 0x80, true)]
        poll_trace(q1, 0x80, true) && {
            let l = pre + px_head(x, y, b0) + q1;
            ||| partial_of(l, post, seq![dat_frame(b1)])
            ||| poll_partial(l + seq![dat_frame(b1)], post, 0x80, true)
            ||| exists|q2: Seq<Frame>|
                #![trigger poll_trace(q2, 0x80, true)]
                poll_trace(q2, 0x80, true) && {
                    let l2 = l + seq![dat_frame(b1)] + q2;
                    ||| partial_of(l2, post, seq![dat_frame(b2)])
                    ||| poll_partial(l2 + seq![dat_frame(b2)], post, 0x80, true)
                }
        }
}

impl<SPI: SpiBus, CS: ChipSelect> ER5517<SPI, CS> {
    /// Draw one pixel.  A coordinate outside the configured panel bounds
    /// (`x < width && y < height`) is silently dropped: the call returns
    /// `Ok` and emits no bus traffic at all.  In bounds, the cursor is
    /// positioned, the pixel-write command register is selected, and the
    /// mode-specific byte sequence is written — two RGB565 bytes in
    /// 16-bit mode, the blue, green and red bytes in 24-bit mode — with
    /// a FIFO-room wait after every byte.
    pub fn draw_pixel(&mut self, x: u16, y: u16, r: u8, g: u8, b: u8) -> (res: Res<(), SPI, CS>)
        requires
            old(self).mode() != ColorMode::EightBit,
        ensures
            !(x < old(self).cfg().width && y < old(self).cfg().height) ==> res is Ok
                && *final(self) == *old(self),
            res is Ok && x < old(self).cfg().width && y < old(self).cfg().height
                && old(self).mode() == ColorMode::SixteenBit ==> exists|q1: Seq<Frame>, q2: Seq<Frame>|
                #![trigger poll_trace(q1, 0x80, true), poll_trace(q2, 0x80, true)]
                {
                    &&& final(self).emitted(
                        old(self),
                        goto_frames(x, y) + seq![sel_frame(0x04)] + seq![
                            dat_frame(px16_byte0(r, g, b)),
                        ] + q1 + seq![dat_frame(px16_byte1(r, g, b))] + q2,
                    )
                    &&& poll_trace(q1, 0x80, true)
                    &&& poll_trace(q2, 0x80, true)
                },
            res is Ok && x < old(self).cfg().width && y < old(self).cfg().height
                && old(self).mode() == ColorMode::TwentyFourBit ==> exists|
                q1: Seq<Frame>,
                q2: Seq<Frame>,
                q3: Seq<Frame>,
            |
                #![trigger poll_trace(q1, 0x80, true), poll_trace(q2, 0x80, true),
                    poll_trace(q3, 0x80, true)]
                {
                    &&& final(self).emitted(
                        old(self),
                        goto_frames(x, y) + seq![sel_frame(0x04)] + seq![dat_frame(b)] + q1 + seq![
                            dat_frame(g),
                        ] + q2 + seq![dat_frame(r)] + q3,
                    )
                    &&& poll_trace(q1, 0x80, true)
                    &&& poll_trace(q2, 0x80, true)
                    &&& poll_trace(q3, 0x80, true)
                },
            res is Err ==> final(self).err_step(old(self)),
            res is Err && old(self).mode() == ColorMode::SixteenBit ==> px2_partial(
                old(self).bus_log(),
                final(self).bus_log(),
                x,
                y,
                px16_byte0(r, g, b),
                px16_byte1(r, g, b),
            ),
            res is Err && old(self).mode() == ColorMode::TwentyFourBit ==> px3_partial(
                old(self).bus_log(),
                final(self).bus_log(),
                x,
                y,
                b,
                g,
                r,
            ),
            res matches Err(Error::NotReady) ==> ends_exhausted(
                final(self).bus_log(),
                0x80,
                true,
                old(self).cfg().poll_limit,
            ),
            !is_pin_fault(res) ==> final(self).cs_released(old(self)),
    {
        let cfg = self.config();
        if !(x < cfg.width && y < cfg.height) {
            return Ok(());
        }
        let ghost pre = *old(self);
        let m = self.color_mode();
        self.goto_pixel(x, y)?;
        self.cmd_write(0x04)?;
        match m {
            ColorMode::SixteenBit => {
                let v0 = b | (g << 5);
                self.data_write(v0)?;
                let ghost g2 = *self;
                self.check_mem_wr_fifo_ready()?;
                let ghost g3 = *self;
                let v1 = (g >> 3) | (r << 3);
                match self.data_write(v1) {
                    Ok(u) => u,
                    Err(e) => {
                        proof {
                            let q1 = choose|p: Seq<Frame>|
                                g3.emitted(&g2, p) && #[trigger] poll_trace(p, 0x80, true);
                            assert(g3.bus_log() == pre.bus_log() + px_head(x, y, v0) + q1);
                            assert(px2_partial(pre.bus_log(), self.bus_log(), x, y, v0, v1));
                        }
                        return Err(e);
                    }
                };
                let ghost g4 = *self;
                match self.check_mem_wr_fifo_ready() {
                    Ok(u) => u,
                    Err(e) => {
                        proof {
                            let q1 = choose|p: Seq<Frame>|
                                g3.emitted(&g2, p) && #[trigger] poll_trace(p, 0x80, true);
                            assert(g3.bus_log() == pre.bus_log() + px_head(x, y, v0) + q1);
                            assert(g4.bus_log() == pre.bus_log() + px_head(x, y, v0) + q1 + seq![
                                dat_frame(v1),
                            ]);
                            assert(px2_partial(pre.bus_log(), self.bus_log(), x, y, v0, v1));
                        }
                        return Err(e);
                    }
                };
                proof {
                    let q1 = choose|p: Seq<Frame>|
                        g3.emitted(&g2, p) && #[trigger] poll_trace(p, 0x80, true);
                    let q2 = choose|p: Seq<Frame>|
                        self.emitted(&g4, p) && #[trigger] poll_trace(p, 0x80, true);
                    assert(self.bus_log() =~= pre.bus_log() + (goto_frames(x, y) + seq![
                        sel_frame(0x04),
                    ] + seq![dat_frame(px16_byte0(r, g, b))] + q1 + seq![
                        dat_frame(px16_byte1(r, g, b)),
                    ] + q2));
                }
                Ok(())
            }
            ColorMode::TwentyFourBit => {
                self.data_write(b)?;
                let ghost g2 = *self;
                self.check_mem_wr_fifo_ready()?;
                let ghost g3 = *self;
                match self.data_write(g) {
                    Ok(u) => u,
                    Err(e) => {
                        proof {
                            let q1 = choose|p: Seq<Frame>|
                                g3.emitted(&g2, p) && #[trigger] poll_trace(p, 0x80, true);
                            assert(g3.bus_log() == pre.bus_log() + px_head(x, y, b) + q1);
                            assert(px3_partial(pre.bus_log(), self.bus_log(), x, y, b, g, r));
                        }
                        return Err(e);
                    }
                };
                let ghost g4 = *self;
                match self.check_mem_wr_fifo_ready() {
                    Ok(u) => u,
                    Err(e) => {
                        proof {
                            let q1 = choose|p: Seq<Frame>|
                                g3.emitted(&g2, p) && #[trigger] poll_trace(p, 0x80, true);
                            assert(g3.bus_log() == pre.bus_log() + px_head(x, y, b) + q1);
                            assert(g4.bus_log() == pre.bus_log() + px_head(x, y, b) + q1 + seq![
                                dat_frame(g),
                            ]);
                            assert(px3_partial(pre.bus_log(), self.bus_log(), x, y, b, g, r));
                        }
                        return Err(e);
                    }
                };
                let ghost g5 = *self;
                match self.data_write(r) {
                    Ok(u) => u,
                    Err(e) => {
                        proof {
                            let q1 = choose|p: Seq<Frame>|
                                g3.emitted(&g2, p) && #[trigger] poll_trace(p, 0x80, true);
                            let q2 = choose|p: Seq<Frame>|
                                g5.emitted(&g4, p) && #[trigger] poll_trace(p, 0x80, true);
                            assert(g3.bus_log() == pre.bus_log() + px_head(x, y, b) + q1);
                            assert(g5.bus_log() == pre.bus_log() + px_head(x, y, b) + q1 + seq![
                                dat_frame(g),
                            ] + q2);
                            assert(px3_partial(pre.bus_log(), self.bus_log(), x, y, b, g, r));
                        }
                        return Err(e);
                    }
                };
                let ghost g6 = *self;
                match self.check_mem_wr_fifo_ready() {
                    Ok(u) => u,
                    Err(e) => {
                        proof {
                            let q1 = choose|p: Seq<Frame>|
                                g3.emitted(&g2, p) && #[trigger] poll_trace(p, 0x80, true);
                            let q2 = choose|p: Seq<Frame>|
                                g5.emitted(&g4, p) && #[trigger] poll_trace(p, 0x80, true);
                            assert(g3.bus_log() == pre.bus_log() + px_head(x, y, b) + q1);
                            assert(g5.bus_log() == pre.bus_log() + px_head(x, y, b) + q1 + seq![
                                dat_frame(g),
                            ] + q2);
                            assert(g6.bus_log() == pre.bus_log() + px_head(x, y, b) + q1 + seq![
                                dat_frame(g),
                            ] + q2 + seq![dat_frame(r)]);
                            assert(px3_partial(pre.bus_log(), self.bus_log(), x, y, b, g, r));
                        }
                        return Err(e);
                    }
                };
                proof {
                    let q1 = choose|p: Seq<Frame>|
                        g3.emitted(&g2, p) && #[trigger] poll_trace(p, 0x80, true);
                    let q2 = choose|p: Seq<Frame>|
                        g5.emitted(&g4, p) && #[trigger] poll_trace(p, 0x80, true);
                    let q3 = choose|p: Seq<Frame>|
                        self.emitted(&g6, p) && #[trigger] poll_trace(p, 0x80, true);
                    assert(self.bus_log() =~= pre.bus_log() + (goto_frames(x, y) + seq![
                        sel_frame(0x04),
                    ] + seq![dat_frame(b)] + q1 + seq![dat_frame(g)] + q2 + seq![dat_frame(r)]
                        + q3));
                }
                Ok(())
            }
            ColorMode::EightBit => {
                proof {
                    assert(false);
                }
                Ok(())
            }
        }
    }

    /// Fill a rectangle with a solid color.  The rectangle is first
    /// intersected with the panel bounding box; an empty intersection is
    /// a silent no-op with zero bus traffic.  Otherwise the foreground
    /// color is set (channels clamped and packed for the active mode),
    /// the clipped corners are written to the line-start and line-end
    /// registers, the hardware fill command is issued, and the call
    /// blocks until the draw engine is idle.
    #[verifier::rlimit(100)]
    #[verifier::spinoff_prover]
    pub fn fill_rect(&mut self, rect: Rect, r: u8, g: u8, b: u8) -> (res: Res<(), SPI, CS>)
        ensures
            !rect_visible(rect, old(self).cfg().width, old(self).cfg().height) ==> res is Ok
                && *final(self) == *old(self),
            res is Ok && rect_visible(rect, old(self).cfg().width, old(self).cfg().height)
                ==> exists|p: Seq<Frame>|
                {
                    &&& final(self).emitted(
                        old(self),
                        fg_mode_frames(old(self).mode(), r, g, b) + line_start_frames(
                            clip_x0(rect) as u16,
                            clip_y0(rect) as u16,
                        ) + line_end_frames(
                            (clip_x1(rect, old(self).cfg().width) - 1) as u16,
                            (clip_y1(rect, old(self).cfg().height) - 1) as u16,
                        ) + reg_write_frames(0x76, 0xE0) + p,
                    )
                    &&& #[trigger] poll_trace(p, 0x08, true)
                },
            res is Err ==> final(self).err_step(old(self)),
            res is Err ==> writes_then_poll_partial(
                old(self).bus_log(),
                final(self).bus_log(),
                fg_mode_frames(old(self).mode(), r, g, b) + line_start_frames(
                    clip_x0(rect) as u16,
                    clip_y0(rect) as u16,
                ) + line_end_frames(
                    (clip_x1(rect, old(self).cfg().width) - 1) as u16,
                    (clip_y1(rect, old(self).cfg().height) - 1) as u16,
                ) + reg_write_frames(0x76, 0xE0),
                0x08,
                true,
            ),
            res matches Err(Error::NotReady) ==> ends_exhausted(
                final(self).bus_log(),
                0x08,
                true,
                old(self).cfg().poll_limit,
            ),
            !is_pin_fault(res) ==> final(self).cs_released(old(self)),
    {
        let ghost pre = *old(self);
        let cfg = self.config();
        let x0: i64 = if rect.x < 0 {
            0
        } else {
            rect.x as i64
        };
        let y0: i64 = if rect.y < 0 {
            0
        } else {
            rect.y as i64
        };
        let xe: i64 = rect.x as i64 + rect.w as i64;
        let ye: i64 = rect.y as i64 + rect.h as i64;
        let x1: i64 = if xe < cfg.width as i64 {
            xe
        } else {
            cfg.width as i64
        };
        let y1: i64 = if ye < cfg.height as i64 {
            ye
        } else {
            cfg.height as i64
        };
        if !(x0 < x1 && y0 < y1) {
            return Ok(());
        }
        let m = self.color_mode();
        let (pr, pg, pb) = clamp_channels(m, r, g, b);
        self.fg_color(pr, pg, pb)?;
        self.line_start(x0 as u16, y0 as u16)?;
        self.line_end((x1 - 1) as u16, (y1 - 1) as u16)?;
        let ghost g2 = *self;
        self.rect_fill()?;
        proof {
            let p = choose|p: Seq<Frame>|
                self.emitted(&g2, reg_write_frames(0x76, 0xE0) + p) && #[trigger] poll_trace(
                    p,
                    0x08,
                    true,
                );
            assert(self.bus_log() =~= pre.bus_log() + (fg_mode_frames(pre.mode(), r, g, b)
                + line_start_frames(clip_x0(rect) as u16, clip_y0(rect) as u16)
                + line_end_frames(
                (clip_x1(rect, pre.cfg().width) - 1) as u16,
                (clip_y1(rect, pre.cfg().height) - 1) as u16,
            ) + reg_write_frames(0x76, 0xE0) + p));
        }
        Ok(())
    }
}

} // verus!
