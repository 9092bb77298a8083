//! The bring-up sequencer: a fixed, single-pass walk from power-on to an
//! actively scanning, framebuffer-ready controller.
//!
//! [`ER5517::init`] runs the sequence; [`init_emits`] is its complete
//! wire-level contract: given the panel configuration and the color
//! mode, it pins down every register write of the sequence, leaving open
//! only the bytes the chip itself answered (the status polls, the
//! temperature self-check and the read half of each read-modify-write).

use vstd::prelude::*;
use crate::bus::{ChipSelect, Delay, Error, SpiBus, is_pin_fault};
use crate::color::ColorMode;
use crate::config::PanelConfig;
use crate::driver::{ER5517, Res};
use crate::frames::{
    Frame, dat_frame, ends_exhausted, is_data_read, log_grows, partial_of, poll_partial,
    poll_trace, read_frame, recv_of, rmw_frames, rmw_partial, sel_frame, status_frame,
    temp_check_rounds, temp_check_trace, temp_check_waits, temp_partial, temp_round_prefix,
    temp_rounds_waits, writes_then_poll_partial, lemma_temp_rounds_finish,
    lemma_temp_rounds_concat, lemma_temp_waits_concat, lemma_temp_waits_finish,
};
use crate::regs::{
    active_window_frames, canvas_image_frames, horiz_non_display_frames, horiz_pulse_frames,
    horiz_start_frames, main_image_frames, main_window_color_bits, memory_color_bits,
    display_on_bits, pll_frames, rmw_bits, sdram_frames, vert_non_display_frames,
    vert_pulse_frames, vert_start_frames, width_height_frames,
};

verus! {

/// Traffic of the interface, pixel-format, scan-direction and polarity
/// bit-field updates, in bring-up order: TFT width, host width, RGB
/// packing, memory write direction, graphic mode, memory select, the
/// three scan-direction/output bits, pixel-clock edge and the three sync
/// polarities.  `rs[i]` is the byte the i-th read-modify-write read
/// back from the chip.
pub open spec fn config_fields_frames(rs: Seq<u8>) -> Seq<Frame> {
    rmw_frames(0x01, rs[0], rmw_bits(rs[0], 0x10, 0x08)) + rmw_frames(
        0x01,
        rs[1],
        rmw_bits(rs[1], 0x01, 0x00),
    ) + rmw_frames(0x02, rs[2], rmw_bits(rs[2], 0x40, 0x80)) + rmw_frames(
        0x02,
        rs[3],
        rmw_bits(rs[3], 0x00, 0x06),
    ) + rmw_frames(0x03, rs[4], rmw_bits(rs[4], 0x00, 0x04)) + rmw_frames(
        0x03,
        rs[5],
        rmw_bits(rs[5], 0x00, 0x03),
    ) + rmw_frames(0x12, rs[6], rmw_bits(rs[6], 0x00, 0x10)) + rmw_frames(
        0x12,
        rs[7],
        rmw_bits(rs[7], 0x00, 0x08),
    ) + rmw_frames(0x12, rs[8], rmw_bits(rs[8], 0x00, 0x07)) + rmw_frames(
        0x12,
        rs[9],
        rmw_bits(rs[9], 0x80, 0x00),
    ) + rmw_frames(0x13, rs[10], rmw_bits(rs[10], 0x00, 0x80)) + rmw_frames(
        0x13,
        rs[11],
        rmw_bits(rs[11], 0x00, 0x40),
    ) + rmw_frames(0x13, rs[12], rmw_bits(rs[12], 0x00, 0x20))
}

/// Traffic of the geometry/timing writes, in bring-up order: width and
/// height, then the three horizontal and three vertical timing values.
pub open spec fn geometry_frames(cfg: PanelConfig) -> Seq<Frame> {
    width_height_frames(cfg.width, cfg.height) + horiz_non_display_frames(cfg.h_back_porch)
        + horiz_start_frames(cfg.h_front_porch) + horiz_pulse_frames(cfg.h_sync_width)
        + vert_non_display_frames(cfg.v_back_porch) + vert_start_frames(cfg.v_front_porch)
        + vert_pulse_frames(cfg.v_sync_width)
}

/// Traffic of the color-mode and memory-layout configuration and the
/// panel enable, in bring-up order: main-window color format, linear
/// addressing, memory color format, main-window color format again,
/// display on, and main-window color format once more.  `cl[i]` is the
/// byte the i-th read-modify-write read back.
pub open spec fn color_layout_frames(cl: Seq<u8>, mode: ColorMode) -> Seq<Frame> {
    rmw_frames(0x10, cl[0], main_window_color_bits(cl[0], mode)) + rmw_frames(
        0x5E,
        cl[1],
        rmw_bits(cl[1], 0x00, 0x04),
    ) + rmw_frames(0x5E, cl[2], memory_color_bits(cl[2], mode)) + rmw_frames(
        0x10,
        cl[3],
        main_window_color_bits(cl[3], mode),
    ) + rmw_frames(0x12, cl[4], display_on_bits(cl[4], true)) + rmw_frames(
        0x10,
        cl[5],
        main_window_color_bits(cl[5], mode),
    )
}

/// Traffic of the framebuffer setup, in bring-up order: main image at
/// address 0 with the panel width and zero offsets, canvas at address 0
/// with the panel width, and the active window covering the whole panel.
pub open spec fn framebuffer_frames(cfg: PanelConfig) -> Seq<Frame> {
    main_image_frames(0, 0, 0, cfg.width) + canvas_image_frames(0, cfg.width)
        + active_window_frames(0, 0, cfg.width, cfg.height)
}

/// The traffic a failed PLL setup left behind, cut off at the failing
/// step of its fixed write sequence (including the latch pair).
pub open spec fn pll_partial(pre: Seq<Frame>, post: Seq<Frame>, scan_n: u8) -> bool {
    let base = pre.len() as int;
    &&& log_grows(pre, post)
    &&& post.len() <= pre.len() + 26
    &&& post.len() > pre.len() + 0 ==> post[base + 0] == sel_frame(0x05)
    &&& post.len() > pre.len() + 1 ==> post[base + 1] == dat_frame(0x8A)
    &&& post.len() > pre.len() + 2 ==> post[base + 2] == sel_frame(0x07)
    &&& post.len() > pre.len() + 3 ==> post[base + 3] == dat_frame(0x8A)
    &&& post.len() > pre.len() + 4 ==> post[base + 4] == sel_frame(0x09)
    &&& post.len() > pre.len() + 5 ==> post[base + 5] == dat_frame(0x8A)
    &&& post.len() > pre.len() + 6 ==> post[base + 6] == sel_frame(0x06)
    &&& post.len() > pre.len() + 7 ==> post[base + 7] == dat_frame(scan_n)
    &&& post.len() > pre.len() + 8 ==> post[base + 8] == sel_frame(0x08)
    &&& post.len() > pre.len() + 9 ==> post[base + 9] == dat_frame(100)
    &&& post.len() > pre.len() + 10 ==> post[base + 10] == sel_frame(0x0A)
    &&& post.len() > pre.len() + 11 ==> post[base + 11] == dat_frame(100)
    &&& post.len() > pre.len() + 12 ==> post[base + 12] == sel_frame(0x00)
    &&& post.len() > pre.len() + 13 ==> post[base + 13] == dat_frame(0x80)
    &&& post.len() > pre.len() + 14 ==> post[base + 14] == sel_frame(0x85)
    &&& post.len() > pre.len() + 15 ==> post[base + 15] == dat_frame(0x0A)
    &&& post.len() > pre.len() + 16 ==> post[base + 16] == sel_frame(0x88)
    &&& post.len() > pre.len() + 17 ==> post[base + 17] == dat_frame(0x64)
    &&& post.len() > pre.len() + 18 ==> post[base + 18] == sel_frame(0x8A)
    &&& post.len() > pre.len() + 19 ==> post[base + 19] == dat_frame(0x64)
    &&& post.len() > pre.len() + 20 ==> post[base + 20] == sel_frame(0x8C)
    &&& post.len() > pre.len() + 21 ==> post[base + 21] == dat_frame(0x64)
    &&& post.len() > pre.len() + 22 ==> post[base + 22] == sel_frame(0x8E)
    &&& post.len() > pre.len() + 23 ==> post[base + 23] == dat_frame(0x64)
    &&& post.len() > pre.len() + 24 ==> post[base + 24] == sel_frame(0x86)
    &&& post.len() > pre.len() + 25 ==> post[base + 25] == dat_frame(0x33)
}

/// The traffic a failed bit-field configuration block left behind: cut
/// off inside its thirteen read-modify-writes, each frame agreeing with
/// its position in the block.
pub open spec fn cf_partial(pre: Seq<Frame>, post: Seq<Frame>) -> bool {
    let base = pre.len() as int;
    &&& log_grows(pre, post)
    &&& post.len() <= pre.len() + 39
    &&& post.len() > pre.len() + 0 ==> post[base + 0] == sel_frame(0x01)
    &&& post.len() > pre.len() + 1 ==> is_data_read(post[base + 1])
    &&& post.len() > pre.len() + 2 ==> post[base + 2] == dat_frame(
        rmw_bits(recv_of(post[base + 1]), 0x10, 0x08),
    )
    &&& post.len() > pre.len() + 3 ==> post[base + 3] == sel_frame(0x01)
    &&& post.len() > pre.len() + 4 ==> is_data_read(post[base + 4])
    &&& post.len() > pre.len() + 5 ==> post[base + 5] == dat_frame(
        rmw_bits(recv_of(post[base + 4]), 0x01, 0x00),
    )
    &&& post.len() > pre.len() + 6 ==> post[base + 6] == sel_frame(0x02)
    &&& post.len() > pre.len() + 7 ==> is_data_read(post[base + 7])
    &&& post.len() > pre.len() + 8 ==> post[base + 8] == dat_frame(
        rmw_bits(recv_of(post[base + 7]), 0x40, 0x80),
    )
    &&& post.len() > pre.len() + 9 ==> post[base + 9] == sel_frame(0x02)
    &&& post.len() > pre.len() + 10 ==> is_data_read(post[base + 10])
    &&& post.len() > pre.len() + 11 ==> post[base + 11] == dat_frame(
        rmw_bits(recv_of(post[base + 10]), 0x00, 0x06),
    )
    &&& post.len() > pre.len() + 12 ==> post[base + 12] == sel_frame(0x03)
    &&& post.len() > pre.len() + 13 ==> is_data_read(post[base + 13])
    &&& post.len() > pre.len() + 14 ==> post[base + 14] == dat_frame(
        rmw_bits(recv_of(post[base + 13]), 0x00, 0x04),
    )
    &&& post.len() > pre.len() + 15 ==> post[base + 15] == sel_frame(0x03)
    &&& post.len() > pre.len() + 16 ==> is_data_read(post[base + 16])
    &&& post.len() > pre.len() + 17 ==> post[base + 17] == dat_frame(
        rmw_bits(recv_of(post[base + 16]), 0x00, 0x03),
    )
    &&& post.len() > pre.len() + 18 ==> post[base + 18] == sel_frame(0x12)
    &&& post.len() > pre.len() + 19 ==> is_data_read(post[base + 19])
    &&& post.len() > pre.len() + 20 ==> post[base + 20] == dat_frame(
        rmw_bits(recv_of(post[base + 19]), 0x00, 0x10),
    )
    &&& post.len() > pre.len() + 21 ==> post[base + 21] == sel_frame(0x12)
    &&& post.len() > pre.len() + 22 ==> is_data_read(post[base + 22])
    &&& post.len() > pre.len() + 23 ==> post[base + 23] == dat_frame(
        rmw_bits(recv_of(post[base + 22]), 0x00, 0x08),
    )
    &&& post.len() > pre.len() + 24 ==> post[base + 24] == sel_frame(0x12)
    &&& post.len() > pre.len() + 25 ==> is_data_read(post[base + 25])
    &&& post.len() > pre.len() + 26 ==> post[base + 26] == dat_frame(
        rmw_bits(recv_of(post[base + 25]), 0x00, 0x07),
    )
    &&& post.len() > pre.len() + 27 ==> post[base + 27] == sel_frame(0x12)
    &&& post.len() > pre.len() + 28 ==> is_data_read(post[base + 28])
    &&& post.len() > pre.len() + 29 ==> post[base + 29] == dat_frame(
        rmw_bits(recv_of(post[base + 28]), 0x80, 0x00),
    )
    &&& post.len() > pre.len() + 30 ==> post[base + 30] == sel_frame(0x13)
    &&& post.len() > pre.len() + 31 ==> is_data_read(post[base + 31])
    &&& post.len() > pre.len() + 32 ==> post[base + 32] == dat_frame(
        rmw_bits(recv_of(post[base + 31]), 0x00, 0x80),
    )
    &&& post.len() > pre.len() + 33 ==> post[base + 33] == sel_frame(0x13)
    &&& post.len() > pre.len() + 34 ==> is_data_read(post[base + 34])
    &&& post.len() > pre.len() + 35 ==> post[base + 35] == dat_frame(
        rmw_bits(recv_of(post[base + 34]), 0x00, 0x40),
    )
    &&& post.len() > pre.len() + 36 ==> post[base + 36] == sel_frame(0x13)
    &&& post.len() > pre.len() + 37 ==> is_data_read(post[base + 37])
    &&& post.len() > pre.len() + 38 ==> post[base + 38] == dat_frame(
        rmw_bits(recv_of(post[base + 37]), 0x00, 0x20),
    )
}

/// Register selected by the `j`-th read-modify-write of the color-mode
/// and memory-layout block.
pub open spec fn cl_reg(j: int) -> u8 {
    if j == 1 || j == 2 {
        0x5E
    } else if j == 4 {
        0x12
    } else {
        0x10
    }
}

/// The byte the `j`-th color-layout read-modify-write writes back for
/// the byte `s` it read.
pub open spec fn cl_dat(j: int, s: u8, mode: ColorMode) -> u8 {
    if j == 1 {
        rmw_bits(s, 0x00, 0x04)
    } else if j == 2 {
        memory_color_bits(s, mode)
    } else if j == 4 {
        display_on_bits(s, true)
    } else {
        main_window_color_bits(s, mode)
    }
}

/// The traffic a failed color-mode/layout block left behind: cut off
/// inside its six read-modify-writes.
pub open spec fn cl_partial(pre: Seq<Frame>, post: Seq<Frame>, mode: ColorMode) -> bool {
    let base = pre.len() as int;
    &&& log_grows(pre, post)
    &&& post.len() <= pre.len() + 18
    &&& forall|i: int|
        base <= i < post.len() && (i - base) % 3 == 0 ==> #[trigger] post[i] == sel_frame(
            cl_reg((i - base) / 3),
        )
    &&& forall|i: int|
        base <= i < post.len() && (i - base) % 3 == 1 ==> is_data_read(#[trigger] post[i])
    &&& forall|i: int|
        base <= i < post.len() && (i - base) % 3 == 2 ==> #[trigger] post[i] == dat_frame(
            cl_dat((i - base) / 3, recv_of(post[i - 1]), mode),
        )
}

/// The traffic a failed bring-up run left behind: the completed steps'
/// full traffic followed by the failing step's partial traffic — no
/// frame of any later step is ever emitted.
pub open spec fn init_partial(
    pre: Seq<Frame>,
    post: Seq<Frame>,
    cfg: PanelConfig,
    mode: ColorMode,
) -> bool {
    ||| temp_partial(pre, post)
    ||| exists|t: Seq<Frame>|
        #![trigger temp_check_trace(t)]
        temp_check_trace(t) && {
            let l1 = pre + t;
            ||| poll_partial(l1, post, 0x02, true)
            ||| exists|p1: Seq<Frame>|
                #![trigger poll_trace(p1, 0x02, true)]
                poll_trace(p1, 0x02, true) && {
                    let l2 = l1 + p1;
                    ||| pll_partial(l2, post, cfg.scan_pll_n)
                    ||| {
                        let l3 = l2 + pll_frames(cfg.scan_pll_n);
                        ||| writes_then_poll_partial(l3, post, sdram_frames(), 0x04, false)
                        ||| exists|p2: Seq<Frame>|
                            #![trigger poll_trace(p2, 0x04, false)]
                            poll_trace(p2, 0x04, false) && {
                                let l4 = l3 + sdram_frames() + p2;
                                ||| cf_partial(l4, post)
                                ||| exists|rs: Seq<u8>|
                                    #![trigger config_fields_frames(rs)]
                                    rs.len() == 13 && {
                                        let l5 = l4 + config_fields_frames(rs);
                                        ||| partial_of(l5, post, geometry_frames(cfg))
                                        ||| {
                                            let l6 = l5 + geometry_frames(cfg);
                                            ||| cl_partial(l6, post, mode)
                                            ||| exists|cl: Seq<u8>|
                                                #![trigger color_layout_frames(cl, mode)]
                                                cl.len() == 6 && partial_of(
                                                    l6 + color_layout_frames(cl, mode),
                                                    post,
                                                    framebuffer_frames(cfg),
                                                )
                                        }
                                    }
                            }
                    }
                }
        }
}

/// What a hardware-not-ready failure of bring-up left behind: either
/// the self-check ran out of rounds, or one of the two status waits
/// (reset-cleared, SDRAM-ready) reached its bound.
pub open spec fn init_notready(pre: Seq<Frame>, post: Seq<Frame>, limit: u32) -> bool {
    ||| exists|t: Seq<Frame>|
        #![trigger temp_check_rounds(t)]
        post == pre + t && temp_check_rounds(t)
    ||| ends_exhausted(post, 0x02, true, limit)
    ||| ends_exhausted(post, 0x04, false, limit)
}

/// The complete bus traffic of one successful bring-up run, appended to
/// `pre`: the temperature self-check `t`, the reset-cleared wait `p1`,
/// PLL setup, SDRAM setup with its ready wait `p2`, the bit-field
/// configuration block, the geometry writes, the color-mode/layout
/// block with panel enable, and the framebuffer setup.  Only the bytes
/// the chip itself answered are left open.  The delay history grows by
/// the self-check's probe delays, the 100 ms post-check settle, the
/// two 1 ms delays around the PLL latch, and the 1 ms SDRAM settle.
pub open spec fn init_emits(
    pre: Seq<Frame>,
    post: Seq<Frame>,
    wpre: Seq<u16>,
    wpost: Seq<u16>,
    cfg: PanelConfig,
    mode: ColorMode,
) -> bool {
    exists|t: Seq<Frame>, p1: Seq<Frame>, p2: Seq<Frame>, rs: Seq<u8>, cl: Seq<u8>|
        #![trigger temp_check_trace(t), poll_trace(p1, 0x02, true), poll_trace(p2, 0x04, false),
            config_fields_frames(rs), color_layout_frames(cl, mode)]
        {
            &&& temp_check_trace(t)
            &&& poll_trace(p1, 0x02, true)
            &&& poll_trace(p2, 0x04, false)
            &&& rs.len() == 13
            &&& cl.len() == 6
            &&& post == pre + t + p1 + pll_frames(cfg.scan_pll_n) + sdram_frames() + p2
                + config_fields_frames(rs) + geometry_frames(cfg) + color_layout_frames(cl, mode)
                + framebuffer_frames(cfg)
            &&& wpost == wpre + temp_check_waits(t) + seq![100u16, 1u16, 1u16, 1u16]
        }
}

impl<SPI: SpiBus, CS: ChipSelect> ER5517<SPI, CS> {
    /// The vendor temperature self-check.  Each round reads the status
    /// register; once the reset-busy bit clears, the probe register
    /// `0x01` is selected and read back — bit `0x80` means ready.  While
    /// not ready, the check trigger (`0x80` to register `0x01`) is
    /// re-issued and the round repeats, at most `cfg().poll_limit`
    /// times before reporting `NotReady`.
    fn system_check_temp<D: Delay>(&mut self, delay: &mut D) -> (r: Res<(), SPI, CS>)
        ensures
            r is Ok ==> exists|t: Seq<Frame>|
                final(self).emitted(old(self), t) && #[trigger] temp_check_trace(t)
                    && final(delay).waits() == old(delay).waits() + temp_check_waits(t),
            r is Err ==> final(self).err_step(old(self)) && temp_partial(
                old(self).bus_log(),
                final(self).bus_log(),
            ),
            r matches Err(Error::NotReady) ==> exists|t: Seq<Frame>|
                #![trigger temp_check_rounds(t)]
                final(self).bus_log() == old(self).bus_log() + t && temp_check_rounds(t),
            !is_pin_fault(r) ==> final(self).cs_released(old(self)),
    {
        let ghost pre = *old(self);
        let ghost dpre = *old(delay);
        let limit = self.config().poll_limit;
        let mut n: u32 = 0;
        let ghost mut u: Seq<Frame> = Seq::empty();
        while n < limit
            invariant
                pre == *old(self),
                dpre == *old(delay),
                self.mode() == pre.mode(),
                self.cfg() == pre.cfg(),
                n <= limit,
                self.bus_log() == pre.bus_log() + u,
                self.cs_released(&pre),
                temp_check_rounds(u),
                delay.waits() == dpre.waits() + temp_rounds_waits(u),
            decreases limit - n,
        {
            let s = match self.status_read() {
                Ok(s) => s,
                Err(e) => {
                    proof {
                    let n0 = pre.bus_log().len() as int + u.len() as int;
                    assert(self.bus_log().subrange(pre.bus_log().len() as int, n0) =~= u);
                    assert(temp_round_prefix(
                        self.bus_log().subrange(n0, self.bus_log().len() as int),
                    ));
                    assert(temp_partial(pre.bus_log(), self.bus_log()));
                    }
                    return Err(e);
                }
            };
            if s & 0x02 == 0 {
                delay.delay_ms(2);
                match self.cmd_write(0x01) {
                    Ok(u2) => u2,
                    Err(e) => {
                        proof {
                    let n0 = pre.bus_log().len() as int + u.len() as int;
                    assert(self.bus_log().subrange(pre.bus_log().len() as int, n0) =~= u);
                    assert(temp_round_prefix(
                        self.bus_log().subrange(n0, self.bus_log().len() as int),
                    ));
                    assert(temp_partial(pre.bus_log(), self.bus_log()));
                        }
                        return Err(e);
                    }
                };
                delay.delay_ms(2);
                let d = match self.data_read() {
                    Ok(d) => d,
                    Err(e) => {
                        proof {
                    let n0 = pre.bus_log().len() as int + u.len() as int;
                    assert(self.bus_log().subrange(pre.bus_log().len() as int, n0) =~= u);
                    assert(temp_round_prefix(
                        self.bus_log().subrange(n0, self.bus_log().len() as int),
                    ));
                    assert(temp_partial(pre.bus_log(), self.bus_log()));
                        }
                        return Err(e);
                    }
                };
                if d & 0x80 == 0x80 {
                    proof {
                        let fin3 = seq![status_frame(s), sel_frame(0x01), read_frame(d)];
                        assert(temp_check_trace(fin3));
                        lemma_temp_rounds_finish(u, fin3);
                        assert(self.bus_log() =~= pre.bus_log() + (u + fin3));
                        assert(temp_check_waits(fin3) =~= seq![2u16, 2u16]);
                        lemma_temp_waits_finish(u, fin3);
                        assert(delay.waits() =~= dpre.waits() + (temp_rounds_waits(u) + seq![
                            2u16,
                            2u16,
                        ]));
                    }
                    return Ok(());
                }
                delay.delay_ms(2);
                match self.cmd_write(0x01) {
                    Ok(u2) => u2,
                    Err(e) => {
                        proof {
                    let n0 = pre.bus_log().len() as int + u.len() as int;
                    assert(self.bus_log().subrange(pre.bus_log().len() as int, n0) =~= u);
                    assert(temp_round_prefix(
                        self.bus_log().subrange(n0, self.bus_log().len() as int),
                    ));
                    assert(temp_partial(pre.bus_log(), self.bus_log()));
                        }
                        return Err(e);
                    }
                };
                delay.delay_ms(2);
                match self.data_write(0x80) {
                    Ok(u2) => u2,
                    Err(e) => {
                        proof {
                    let n0 = pre.bus_log().len() as int + u.len() as int;
                    assert(self.bus_log().subrange(pre.bus_log().len() as int, n0) =~= u);
                    assert(temp_round_prefix(
                        self.bus_log().subrange(n0, self.bus_log().len() as int),
                    ));
                    assert(temp_partial(pre.bus_log(), self.bus_log()));
                        }
                        return Err(e);
                    }
                };
                proof {
                    let round = seq![
                        status_frame(s),
                        sel_frame(0x01),
                        read_frame(d),
                        sel_frame(0x01),
                        dat_frame(0x80),
                    ];
                    assert(temp_check_rounds(round)) by {
                        assert(round.skip(5) =~= Seq::<Frame>::empty());
                        assert(temp_check_rounds(Seq::<Frame>::empty()));
                    }
                    lemma_temp_rounds_concat(u, round);
                    assert(pre.bus_log() + (u + round) =~= self.bus_log());
                    assert(temp_rounds_waits(round) =~= seq![2u16, 2u16, 2u16, 2u16]) by {
                        assert(round.skip(5) =~= Seq::<Frame>::empty());
                        assert(temp_rounds_waits(Seq::<Frame>::empty()) == Seq::<u16>::empty());
                        assert(seq![2u16, 2u16, 2u16, 2u16] + Seq::<u16>::empty() =~= seq![
                            2u16,
                            2u16,
                            2u16,
                            2u16,
                        ]);
                    }
                    lemma_temp_waits_concat(u, round);
                    assert(delay.waits() =~= dpre.waits() + (temp_rounds_waits(u) + seq![
                        2u16,
                        2u16,
                        2u16,
                        2u16,
                    ]));
                    u = u + round;
                }
            } else {
                proof {
                    let round = seq![status_frame(s)];
                    assert(temp_check_rounds(round)) by {
                        assert(round.skip(1) =~= Seq::<Frame>::empty());
                        assert(temp_check_rounds(Seq::<Frame>::empty()));
                    }
                    lemma_temp_rounds_concat(u, round);
                    assert(pre.bus_log() + (u + round) =~= self.bus_log());
                    assert(temp_rounds_waits(round) =~= Seq::<u16>::empty()) by {
                        assert(round.skip(1) =~= Seq::<Frame>::empty());
                        assert(temp_rounds_waits(Seq::<Frame>::empty()) == Seq::<u16>::empty());
                    }
                    lemma_temp_waits_concat(u, round);
                    assert(dpre.waits() + (temp_rounds_waits(u) + temp_rounds_waits(round)) =~= dpre.waits()
                        + temp_rounds_waits(u));
                    u = u + round;
                }
            }
            n = n + 1;
        }
        proof {
            assert(temp_check_rounds(u));
            assert(self.bus_log().subrange(
                pre.bus_log().len() as int,
                pre.bus_log().len() as int + u.len() as int,
            ) =~= u);
            assert(temp_round_prefix(Seq::<Frame>::empty()));
            assert(self.bus_log().subrange(
                pre.bus_log().len() as int + u.len() as int,
                self.bus_log().len() as int,
            ) =~= Seq::<Frame>::empty());
            assert(temp_partial(pre.bus_log(), self.bus_log()));
        }
        Err(Error::NotReady)
    }

    /// Configure the three PLL channels: each output divider 2 and input
    /// divider 5 (packed as `0x8A`), feedback multipliers from the
    /// configuration (scan) and 100 (core, memory); latch the PLLs with
    /// the mandatory settle delay between the command-select and
    /// data-write halves; then set the two bring-up PWM channels to 100%
    /// duty.
    fn pll_init<D: Delay>(&mut self, delay: &mut D) -> (r: Res<(), SPI, CS>)
        ensures
            r is Ok ==> final(self).emitted(old(self), pll_frames(old(self).cfg().scan_pll_n))
                && final(delay).waits() == old(delay).waits() + seq![1u16, 1u16],
            r is Err ==> final(self).err_step(old(self)),
            r is Err ==> pll_partial(
                old(self).bus_log(),
                final(self).bus_log(),
                old(self).cfg().scan_pll_n,
            ),
            !(r matches Err(Error::NotReady)),
            !is_pin_fault(r) ==> final(self).cs_released(old(self)),
    {
        let ghost pre = *old(self);
        let ghost dpre = *old(delay);
        let scan_n = self.config().scan_pll_n;
        self.register_write(0x05, 0x8A)?;
        self.register_write(0x07, 0x8A)?;
        self.register_write(0x09, 0x8A)?;
        self.register_write(0x06, scan_n)?;
        self.register_write(0x08, 100)?;
        self.register_write(0x0A, 100)?;
        self.cmd_write(0x00)?;
        delay.delay_ms(1);
        self.data_write(0x80)?;
        delay.delay_ms(1);
        self.register_write(0x85, 0x0A)?;
        self.register_write(0x88, 0x64)?;
        self.register_write(0x8A, 0x64)?;
        self.register_write(0x8C, 0x64)?;
        self.register_write(0x8E, 0x64)?;
        self.register_write(0x86, 0x33)?;
        proof {
            assert(self.bus_log() =~= pre.bus_log() + pll_frames(pre.cfg().scan_pll_n));
            assert(delay.waits() =~= dpre.waits() + seq![1u16, 1u16]);
        }
        Ok(())
    }

    /// Configure the SDRAM controller: CAS latency 3, a refresh interval
    /// of 476, trigger initialization, then block until the memory
    /// controller reports trained and let it settle.
    fn sdram_init<D: Delay>(&mut self, delay: &mut D) -> (r: Res<(), SPI, CS>)
        ensures
            r is Ok ==> exists|p: Seq<Frame>|
                final(self).emitted(old(self), sdram_frames() + p) && #[trigger] poll_trace(
                    p,
                    0x04,
                    false,
                ),
            r is Ok ==> final(delay).waits() == old(delay).waits().push(1),
            r is Err ==> final(self).err_step(old(self)),
            r is Err ==> writes_then_poll_partial(
                old(self).bus_log(),
                final(self).bus_log(),
                sdram_frames(),
                0x04,
                false,
            ),
            r matches Err(Error::NotReady) ==> ends_exhausted(
                final(self).bus_log(),
                0x04,
                false,
                old(self).cfg().poll_limit,
            ),
            !is_pin_fault(r) ==> final(self).cs_released(old(self)),
    {
        let ghost pre = *old(self);
        self.register_write(0xE0, 0x29)?;
        self.register_write(0xE1, 0x03)?;
        let itv: u16 = 476;
        self.register_write(0xE2, (itv % 256) as u8)?;
        self.register_write(0xE3, (itv / 256) as u8)?;
        self.register_write(0xE4, 0x01)?;
        let ghost mid = *self;
        self.sdram_check_ready()?;
        proof {
            let p = choose|p: Seq<Frame>|
                self.emitted(&mid, p) && #[trigger] poll_trace(p, 0x04, false);
            assert(self.bus_log() =~= pre.bus_log() + (sdram_frames() + p));
        }
        delay.delay_ms(1);
        Ok(())
    }

    /// Select a 16-bit TFT data width: set bit `0x10`, clear bit `0x08`
    /// of register `0x01`.
    fn tft_16bit(&mut self) -> (r: Res<(), SPI, CS>)
        ensures
            r is Ok ==> exists|s: u8|
                final(self).emitted(old(self), #[trigger] rmw_frames(0x01, s, rmw_bits(s, 0x10, 0x08))),
            r is Err ==> final(self).err_step(old(self)),
            r is Ok ==> final(self).bus_log().len() == old(self).bus_log().len() + 3
                && rmw_partial(
                old(self).bus_log(),
                final(self).bus_log(),
                0x01,
                |s: u8| rmw_bits(s, 0x10, 0x08),
            ),
            r is Err ==> rmw_partial(
                old(self).bus_log(),
                final(self).bus_log(),
                0x01,
                |s: u8| rmw_bits(s, 0x10, 0x08),
            ),
            !(r matches Err(Error::NotReady)),
            !is_pin_fault(r) ==> final(self).cs_released(old(self)),
    {
        self.rmw_set_clear(0x01, 0x10, 0x08)
    }

    /// Select a 16-bit host bus width: set bit `0x01` of register
    /// `0x01`.
    fn host_16bit(&mut self) -> (r: Res<(), SPI, CS>)
        ensures
            r is Ok ==> exists|s: u8|
                final(self).emitted(old(self), #[trigger] rmw_frames(0x01, s, rmw_bits(s, 0x01, 0x00))),
            r is Err ==> final(self).err_step(old(self)),
            r is Ok ==> final(self).bus_log().len() == old(self).bus_log().len() + 3
                && rmw_partial(
                old(self).bus_log(),
                final(self).bus_log(),
                0x01,
                |s: u8| rmw_bits(s, 0x01, 0x00),
            ),
            r is Err ==> rmw_partial(
                old(self).bus_log(),
                final(self).bus_log(),
                0x01,
                |s: u8| rmw_bits(s, 0x01, 0x00),
            ),
            !(r matches Err(Error::NotReady)),
            !is_pin_fault(r) ==> final(self).cs_released(old(self)),
    {
        self.rmw_set_clear(0x01, 0x01, 0x00)
    }

    /// Select 16-bits-per-pixel RGB packing: set bit `0x40`, clear bit
    /// `0x80` of register `0x02`.
    fn rgb_16bit_16bpp(&mut self) -> (r: Res<(), SPI, CS>)
        ensures
            r is Ok ==> exists|s: u8|
                final(self).emitted(old(self), #[trigger] rmw_frames(0x02, s, rmw_bits(s, 0x40, 0x80))),
            r is Err ==> final(self).err_step(old(self)),
            r is Ok ==> final(self).bus_log().len() == old(self).bus_log().len() + 3
                && rmw_partial(
                old(self).bus_log(),
                final(self).bus_log(),
                0x02,
                |s: u8| rmw_bits(s, 0x40, 0x80),
            ),
            r is Err ==> rmw_partial(
                old(self).bus_log(),
                final(self).bus_log(),
                0x02,
                |s: u8| rmw_bits(s, 0x40, 0x80),
            ),
            !(r matches Err(Error::NotReady)),
            !is_pin_fault(r) ==> final(self).cs_released(old(self)),
    {
        self.rmw_set_clear(0x02, 0x40, 0x80)
    }

    /// Select left-to-right, top-to-down memory write direction: clear
    /// bits `0x06` of register `0x02`.
    fn memwrite_left_right_top_down(&mut self) -> (r: Res<(), SPI, CS>)
        ensures
            r is Ok ==> exists|s: u8|
                final(self).emitted(old(self), #[trigger] rmw_frames(0x02, s, rmw_bits(s, 0x00, 0x06))),
            r is Err ==> final(self).err_step(old(self)),
            r is Ok ==> final(self).bus_log().len() == old(self).bus_log().len() + 3
                && rmw_partial(
                old(self).bus_log(),
                final(self).bus_log(),
                0x02,
                |s: u8| rmw_bits(s, 0x00, 0x06),
            ),
            r is Err ==> rmw_partial(
                old(self).bus_log(),
                final(self).bus_log(),
                0x02,
                |s: u8| rmw_bits(s, 0x00, 0x06),
            ),
            !(r matches Err(Error::NotReady)),
            !is_pin_fault(r) ==> final(self).cs_released(old(self)),
    {
        self.rmw_set_clear(0x02, 0x00, 0x06)
    }

    /// Select graphic (not text) mode: clear bit `0x04` of register
    /// `0x03`.
    fn graphic_mode(&mut self) -> (r: Res<(), SPI, CS>)
        ensures
            r is Ok ==> exists|s: u8|
                final(self).emitted(old(self), #[trigger] rmw_frames(0x03, s, rmw_bits(s, 0x00, 0x04))),
            r is Err ==> final(self).err_step(old(self)),
            r is Ok ==> final(self).bus_log().len() == old(self).bus_log().len() + 3
                && rmw_partial(
                old(self).bus_log(),
                final(self).bus_log(),
                0x03,
                |s: u8| rmw_bits(s, 0x00, 0x04),
            ),
            r is Err ==> rmw_partial(
                old(self).bus_log(),
                final(self).bus_log(),
                0x03,
                |s: u8| rmw_bits(s, 0x00, 0x04),
            ),
            !(r matches Err(Error::NotReady)),
            !is_pin_fault(r) ==> final(self).cs_released(old(self)),
    {
        self.rmw_set_clear(0x03, 0x00, 0x04)
    }

    /// Select SDRAM as the memory target: clear bits `0x03` of register
    /// `0x03`.
    fn mem_select_sdram(&mut self) -> (r: Res<(), SPI, CS>)
        ensures
            r is Ok ==> exists|s: u8|
                final(self).emitted(old(self), #[trigger] rmw_frames(0x03, s, rmw_bits(s, 0x00, 0x03))),
            r is Err ==> final(self).err_step(old(self)),
            r is Ok ==> final(self).bus_log().len() == old(self).bus_log().len() + 3
                && rmw_partial(
                old(self).bus_log(),
                final(self).bus_log(),
                0x03,
                |s: u8| rmw_bits(s, 0x00, 0x03),
            ),
            r is Err ==> rmw_partial(
                old(self).bus_log(),
                final(self).bus_log(),
                0x03,
                |s: u8| rmw_bits(s, 0x00, 0x03),
            ),
            !(r matches Err(Error::NotReady)),
            !is_pin_fault(r) ==> final(self).cs_released(old(self)),
    {
        self.rmw_set_clear(0x03, 0x00, 0x03)
    }

    /// Scan horizontally from left to right: clear bit `0x10` of
    /// register `0x12`.
    fn hscan_l_to_r(&mut self) -> (r: Res<(), SPI, CS>)
        ensures
            r is Ok ==> exists|s: u8|
                final(self).emitted(old(self), #[trigger] rmw_frames(0x12, s, rmw_bits(s, 0x00, 0x10))),
            r is Err ==> final(self).err_step(old(self)),
            r is Ok ==> final(self).bus_log().len() == old(self).bus_log().len() + 3
                && rmw_partial(
                old(self).bus_log(),
                final(self).bus_log(),
                0x12,
                |s: u8| rmw_bits(s, 0x00, 0x10),
            ),
            r is Err ==> rmw_partial(
                old(self).bus_log(),
                final(self).bus_log(),
                0x12,
                |s: u8| rmw_bits(s, 0x00, 0x10),
            ),
            !(r matches Err(Error::NotReady)),
            !is_pin_fault(r) ==> final(self).cs_released(old(self)),
    {
        self.rmw_set_clear(0x12, 0x00, 0x10)
    }

    /// Scan vertically from top to bottom: clear bit `0x08` of register
    /// `0x12`.
    fn vscan_t_to_b(&mut self) -> (r: Res<(), SPI, CS>)
        ensures
            r is Ok ==> exists|s: u8|
                final(self).emitted(old(self), #[trigger] rmw_frames(0x12, s, rmw_bits(s, 0x00, 0x08))),
            r is Err ==> final(self).err_step(old(self)),
            r is Ok ==> final(self).bus_log().len() == old(self).bus_log().len() + 3
                && rmw_partial(
                old(self).bus_log(),
                final(self).bus_log(),
                0x12,
                |s: u8| rmw_bits(s, 0x00, 0x08),
            ),
            r is Err ==> rmw_partial(
                old(self).bus_log(),
                final(self).bus_log(),
                0x12,
                |s: u8| rmw_bits(s, 0x00, 0x08),
            ),
            !(r matches Err(Error::NotReady)),
            !is_pin_fault(r) ==> final(self).cs_released(old(self)),
    {
        self.rmw_set_clear(0x12, 0x00, 0x08)
    }

    /// Select RGB output pixel-data format: clear bits `0x07` of
    /// register `0x12`.
    fn pdata_set_rgb(&mut self) -> (r: Res<(), SPI, CS>)
        ensures
            r is Ok ==> exists|s: u8|
                final(self).emitted(old(self), #[trigger] rmw_frames(0x12, s, rmw_bits(s, 0x00, 0x07))),
            r is Err ==> final(self).err_step(old(self)),
            r is Ok ==> final(self).bus_log().len() == old(self).bus_log().len() + 3
                && rmw_partial(
                old(self).bus_log(),
                final(self).bus_log(),
                0x12,
                |s: u8| rmw_bits(s, 0x00, 0x07),
            ),
            r is Err ==> rmw_partial(
                old(self).bus_log(),
                final(self).bus_log(),
                0x12,
                |s: u8| rmw_bits(s, 0x00, 0x07),
            ),
            !(r matches Err(Error::NotReady)),
            !is_pin_fault(r) ==> final(self).cs_released(old(self)),
    {
        self.rmw_set_clear(0x12, 0x00, 0x07)
    }

    /// Latch pixel data on the falling clock edge: set bit `0x80` of
    /// register `0x12`.
    fn pclk_falling(&mut self) -> (r: Res<(), SPI, CS>)
        ensures
            r is Ok ==> exists|s: u8|
                final(self).emitted(old(self), #[trigger] rmw_frames(0x12, s, rmw_bits(s, 0x80, 0x00))),
            r is Err ==> final(self).err_step(old(self)),
            r is Ok ==> final(self).bus_log().len() == old(self).bus_log().len() + 3
                && rmw_partial(
                old(self).bus_log(),
                final(self).bus_log(),
                0x12,
                |s: u8| rmw_bits(s, 0x80, 0x00),
            ),
            r is Err ==> rmw_partial(
                old(self).bus_log(),
                final(self).bus_log(),
                0x12,
                |s: u8| rmw_bits(s, 0x80, 0x00),
            ),
            !(r matches Err(Error::NotReady)),
            !is_pin_fault(r) ==> final(self).cs_released(old(self)),
    {
        self.rmw_set_clear(0x12, 0x80, 0x00)
    }

    /// Horizontal sync active low: clear bit `0x80` of register `0x13`.
    fn hsync_low_active(&mut self) -> (r: Res<(), SPI, CS>)
        ensures
            r is Ok ==> exists|s: u8|
                final(self).emitted(old(self), #[trigger] rmw_frames(0x13, s, rmw_bits(s, 0x00, 0x80))),
            r is Err ==> final(self).err_step(old(self)),
            r is Ok ==> final(self).bus_log().len() == old(self).bus_log().len() + 3
                && rmw_partial(
                old(self).bus_log(),
                final(self).bus_log(),
                0x13,
                |s: u8| rmw_bits(s, 0x00, 0x80),
            ),
            r is Err ==> rmw_partial(
                old(self).bus_log(),
                final(self).bus_log(),
                0x13,
                |s: u8| rmw_bits(s, 0x00, 0x80),
            ),
            !(r matches Err(Error::NotReady)),
            !is_pin_fault(r) ==> final(self).cs_released(old(self)),
    {
        self.rmw_set_clear(0x13, 0x00, 0x80)
    }

    /// Vertical sync active low: clear bit `0x40` of register `0x13`.
    fn vsync_low_active(&mut self) -> (r: Res<(), SPI, CS>)
        ensures
            r is Ok ==> exists|s: u8|
                final(self).emitted(old(self), #[trigger] rmw_frames(0x13, s, rmw_bits(s, 0x00, 0x40))),
            r is Err ==> final(self).err_step(old(self)),
            r is Ok ==> final(self).bus_log().len() == old(self).bus_log().len() + 3
                && rmw_partial(
                old(self).bus_log(),
                final(self).bus_log(),
                0x13,
                |s: u8| rmw_bits(s, 0x00, 0x40),
            ),
            r is Err ==> rmw_partial(
                old(self).bus_log(),
                final(self).bus_log(),
                0x13,
                |s: u8| rmw_bits(s, 0x00, 0x40),
            ),
            !(r matches Err(Error::NotReady)),
            !is_pin_fault(r) ==> final(self).cs_released(old(self)),
    {
        self.rmw_set_clear(0x13, 0x00, 0x40)
    }

    /// Data-enable active high: clear bit `0x20` of register `0x13`.
    fn de_high_active(&mut self) -> (r: Res<(), SPI, CS>)
        ensures
            r is Ok ==> exists|s: u8|
                final(self).emitted(old(self), #[trigger] rmw_frames(0x13, s, rmw_bits(s, 0x00, 0x20))),
            r is Err ==> final(self).err_step(old(self)),
            r is Ok ==> final(self).bus_log().len() == old(self).bus_log().len() + 3
                && rmw_partial(
                old(self).bus_log(),
                final(self).bus_log(),
                0x13,
                |s: u8| rmw_bits(s, 0x00, 0x20),
            ),
            r is Err ==> rmw_partial(
                old(self).bus_log(),
                final(self).bus_log(),
                0x13,
                |s: u8| rmw_bits(s, 0x00, 0x20),
            ),
            !(r matches Err(Error::NotReady)),
            !is_pin_fault(r) ==> final(self).cs_released(old(self)),
    {
        self.rmw_set_clear(0x13, 0x00, 0x20)
    }

    /// Select linear (not XY) memory addressing: clear bit `0x04` of
    /// register `0x5E`.
    fn memory_xy_mode(&mut self) -> (r: Res<(), SPI, CS>)
        ensures
            r is Ok ==> exists|s: u8|
                final(self).emitted(old(self), #[trigger] rmw_frames(0x5E, s, rmw_bits(s, 0x00, 0x04))),
            r is Err ==> final(self).err_step(old(self)),
            r is Ok ==> final(self).bus_log().len() == old(self).bus_log().len() + 3
                && rmw_partial(
                old(self).bus_log(),
                final(self).bus_log(),
                0x5E,
                |s: u8| rmw_bits(s, 0x00, 0x04),
            ),
            r is Err ==> rmw_partial(
                old(self).bus_log(),
                final(self).bus_log(),
                0x5E,
                |s: u8| rmw_bits(s, 0x00, 0x04),
            ),
            !(r matches Err(Error::NotReady)),
            !is_pin_fault(r) ==> final(self).cs_released(old(self)),
    {
        self.rmw_set_clear(0x5E, 0x00, 0x04)
    }

    /// Write panel width (divided by 8, with remainder byte) and height
    /// (minus one, as a 16-bit split), registers `0x14..=0x15` and
    /// `0x1A..=0x1B`.
    fn set_width_height(&mut self, w: u16, h: u16) -> (r: Res<(), SPI, CS>)
        requires
            8 <= w <= 2055,
            1 <= h,
        ensures
            r is Ok ==> final(self).emitted(old(self), width_height_frames(w, h)),
            r is Err ==> final(self).err_step(old(self)),
            r is Err ==> partial_of(old(self).bus_log(), final(self).bus_log(), width_height_frames(w, h)),
            !(r matches Err(Error::NotReady)),
            !is_pin_fault(r) ==> final(self).cs_released(old(self)),
    {
        let ghost pre = *old(self);
        self.register_write(0x14, (w / 8 - 1) as u8)?;
        self.register_write(0x15, (w % 8) as u8)?;
        let hm = h - 1;
        self.register_write(0x1A, (hm % 256) as u8)?;
        self.register_write(0x1B, (hm / 256) as u8)?;
        proof {
            assert(self.bus_log() =~= pre.bus_log() + width_height_frames(w, h));
        }
        Ok(())
    }

    /// Write the horizontal back-porch (non-display period), registers
    /// `0x16..=0x17`: divided by 8 and decremented, saturating at zero.
    fn set_horiz_non_display(&mut self, w: u16) -> (r: Res<(), SPI, CS>)
        requires
            w <= 2055,
        ensures
            r is Ok ==> final(self).emitted(old(self), horiz_non_display_frames(w)),
            r is Err ==> final(self).err_step(old(self)),
            r is Err ==> partial_of(old(self).bus_log(), final(self).bus_log(), horiz_non_display_frames(w)),
            !(r matches Err(Error::NotReady)),
            !is_pin_fault(r) ==> final(self).cs_released(old(self)),
    {
        let ghost pre = *old(self);
        let d = w / 8;
        let e: u16 = if d > 0 {
            d - 1
        } else {
            0
        };
        self.register_write(0x16, e as u8)?;
        self.register_write(0x17, (w % 8) as u8)?;
        proof {
            assert(self.bus_log() =~= pre.bus_log() + horiz_non_display_frames(w));
        }
        Ok(())
    }

    /// Write the horizontal front-porch (display start position),
    /// register `0x18`.
    fn set_horiz_start_pos(&mut self, w: u16) -> (r: Res<(), SPI, CS>)
        requires
            w <= 2055,
        ensures
            r is Ok ==> final(self).emitted(old(self), horiz_start_frames(w)),
            r is Err ==> final(self).err_step(old(self)),
            r is Err ==> partial_of(old(self).bus_log(), final(self).bus_log(), horiz_start_frames(w)),
            !(r matches Err(Error::NotReady)),
            !is_pin_fault(r) ==> final(self).cs_released(old(self)),
    {
        let ghost pre = *old(self);
        let d = w / 8;
        let e: u16 = if d > 0 {
            d - 1
        } else {
            0
        };
        self.register_write(0x18, e as u8)?;
        proof {
            assert(self.bus_log() =~= pre.bus_log() + horiz_start_frames(w));
        }
        Ok(())
    }

    /// Write the horizontal sync-pulse width, register `0x19`.
    fn set_horiz_pulse_width(&mut self, w: u16) -> (r: Res<(), SPI, CS>)
        requires
            w <= 2055,
        ensures
            r is Ok ==> final(self).emitted(old(self), horiz_pulse_frames(w)),
            r is Err ==> final(self).err_step(old(self)),
            r is Err ==> partial_of(old(self).bus_log(), final(self).bus_log(), horiz_pulse_frames(w)),
            !(r matches Err(Error::NotReady)),
            !is_pin_fault(r) ==> final(self).cs_released(old(self)),
    {
        let ghost pre = *old(self);
        let d = w / 8;
        let e: u16 = if d > 0 {
            d - 1
        } else {
            0
        };
        self.register_write(0x19, e as u8)?;
        proof {
            assert(self.bus_log() =~= pre.bus_log() + horiz_pulse_frames(w));
        }
        Ok(())
    }

    /// Write the vertical back-porch minus one (saturating) as a 16-bit
    /// split, registers `0x1C..=0x1D`.
    fn set_vert_non_display(&mut self, v: u16) -> (r: Res<(), SPI, CS>)
        ensures
            r is Ok ==> final(self).emitted(old(self), vert_non_display_frames(v)),
            r is Err ==> final(self).err_step(old(self)),
            r is Err ==> partial_of(old(self).bus_log(), final(self).bus_log(), vert_non_display_frames(v)),
            !(r matches Err(Error::NotReady)),
            !is_pin_fault(r) ==> final(self).cs_released(old(self)),
    {
        let ghost pre = *old(self);
        let vm: u16 = if v > 0 {
            v - 1
        } else {
            0
        };
        self.register_write(0x1C, (vm % 256) as u8)?;
        self.register_write(0x1D, (vm / 256) as u8)?;
        proof {
            assert(self.bus_log() =~= pre.bus_log() + vert_non_display_frames(v));
        }
        Ok(())
    }

    /// Write the vertical front-porch minus one (saturating), register
    /// `0x1E`.
    fn set_vert_start_pos(&mut self, v: u16) -> (r: Res<(), SPI, CS>)
        requires
            v <= 256,
        ensures
            r is Ok ==> final(self).emitted(old(self), vert_start_frames(v)),
            r is Err ==> final(self).err_step(old(self)),
            r is Err ==> partial_of(old(self).bus_log(), final(self).bus_log(), vert_start_frames(v)),
            !(r matches Err(Error::NotReady)),
            !is_pin_fault(r) ==> final(self).cs_released(old(self)),
    {
        let e: u16 = if v > 0 {
            v - 1
        } else {
            0
        };
        self.register_write(0x1E, e as u8)
    }

    /// Write the vertical sync-pulse width minus one (saturating),
    /// register `0x1F`.
    fn set_vert_pulse_width(&mut self, v: u16) -> (r: Res<(), SPI, CS>)
        requires
            v <= 256,
        ensures
            r is Ok ==> final(self).emitted(old(self), vert_pulse_frames(v)),
            r is Err ==> final(self).err_step(old(self)),
            r is Err ==> partial_of(old(self).bus_log(), final(self).bus_log(), vert_pulse_frames(v)),
            !(r matches Err(Error::NotReady)),
            !is_pin_fault(r) ==> final(self).cs_released(old(self)),
    {
        let e: u16 = if v > 0 {
            v - 1
        } else {
            0
        };
        self.register_write(0x1F, e as u8)
    }

    /// Apply the interface, pixel-format, scan-direction and polarity
    /// bit-field updates of bring-up, in their fixed order.
    #[verifier::rlimit(100)]
    #[verifier::spinoff_prover]
    fn init_config_fields(&mut self) -> (r: Res<(), SPI, CS>)
        ensures
            r is Ok ==> exists|rs: Seq<u8>|
                rs.len() == 13 && final(self).emitted(
                    old(self),
                    #[trigger] config_fields_frames(rs),
                ),
            r is Err ==> final(self).err_step(old(self)),
            r is Err ==> cf_partial(old(self).bus_log(), final(self).bus_log()),
            !(r matches Err(Error::NotReady)),
            !is_pin_fault(r) ==> final(self).cs_released(old(self)),
    {
        let ghost pre = *old(self);
        self.tft_16bit()?;
        let ghost g0 = *self;
        proof {
            assert(cf_partial(pre.bus_log(), self.bus_log()));
        }
        self.host_16bit()?;
        let ghost g1 = *self;
        proof {
            assert(cf_partial(pre.bus_log(), self.bus_log()));
        }
        self.rgb_16bit_16bpp()?;
        let ghost g2 = *self;
        proof {
            assert(cf_partial(pre.bus_log(), self.bus_log()));
        }
        self.memwrite_left_right_top_down()?;
        let ghost g3 = *self;
        proof {
            assert(cf_partial(pre.bus_log(), self.bus_log()));
        }
        self.graphic_mode()?;
        let ghost g4 = *self;
        proof {
            assert(cf_partial(pre.bus_log(), self.bus_log()));
        }
        self.mem_select_sdram()?;
        let ghost g5 = *self;
        proof {
            assert(cf_partial(pre.bus_log(), self.bus_log()));
        }
        self.hscan_l_to_r()?;
        let ghost g6 = *self;
        proof {
            assert(cf_partial(pre.bus_log(), self.bus_log()));
        }
        self.vscan_t_to_b()?;
        let ghost g7 = *self;
        proof {
            assert(cf_partial(pre.bus_log(), self.bus_log()));
        }
        self.pdata_set_rgb()?;
        let ghost g8 = *self;
        proof {
            assert(cf_partial(pre.bus_log(), self.bus_log()));
        }
        self.pclk_falling()?;
        let ghost g9 = *self;
        proof {
            assert(cf_partial(pre.bus_log(), self.bus_log()));
        }
        self.hsync_low_active()?;
        let ghost g10 = *self;
        proof {
            assert(cf_partial(pre.bus_log(), self.bus_log()));
        }
        self.vsync_low_active()?;
        let ghost g11 = *self;
        proof {
            assert(cf_partial(pre.bus_log(), self.bus_log()));
        }
        self.de_high_active()?;
        proof {
            let s0 = choose|s: u8|
                g0.emitted(&pre, #[trigger] rmw_frames(0x01, s, rmw_bits(s, 0x10, 0x08)));
            let s1 = choose|s: u8|
                g1.emitted(&g0, #[trigger] rmw_frames(0x01, s, rmw_bits(s, 0x01, 0x00)));
            let s2 = choose|s: u8|
                g2.emitted(&g1, #[trigger] rmw_frames(0x02, s, rmw_bits(s, 0x40, 0x80)));
            let s3 = choose|s: u8|
                g3.emitted(&g2, #[trigger] rmw_frames(0x02, s, rmw_bits(s, 0x00, 0x06)));
            let s4 = choose|s: u8|
                g4.emitted(&g3, #[trigger] rmw_frames(0x03, s, rmw_bits(s, 0x00, 0x04)));
            let s5 = choose|s: u8|
                g5.emitted(&g4, #[trigger] rmw_frames(0x03, s, rmw_bits(s, 0x00, 0x03)));
            let s6 = choose|s: u8|
                g6.emitted(&g5, #[trigger] rmw_frames(0x12, s, rmw_bits(s, 0x00, 0x10)));
            let s7 = choose|s: u8|
                g7.emitted(&g6, #[trigger] rmw_frames(0x12, s, rmw_bits(s, 0x00, 0x08)));
            let s8 = choose|s: u8|
                g8.emitted(&g7, #[trigger] rmw_frames(0x12, s, rmw_bits(s, 0x00, 0x07)));
            let s9 = choose|s: u8|
                g9.emitted(&g8, #[trigger] rmw_frames(0x12, s, rmw_bits(s, 0x80, 0x00)));
            let s10 = choose|s: u8|
                g10.emitted(&g9, #[trigger] rmw_frames(0x13, s, rmw_bits(s, 0x00, 0x80)));
            let s11 = choose|s: u8|
                g11.emitted(&g10, #[trigger] rmw_frames(0x13, s, rmw_bits(s, 0x00, 0x40)));
            let s12 = choose|s: u8|
                self.emitted(&g11, #[trigger] rmw_frames(0x13, s, rmw_bits(s, 0x00, 0x20)));
            let rs = seq![s0, s1, s2, s3, s4, s5, s6, s7, s8, s9, s10, s11, s12];
            assert(rs.len() == 13);
            assert(rs[0] == s0 && rs[1] == s1 && rs[2] == s2 && rs[3] == s3 && rs[4] == s4
                && rs[5] == s5 && rs[6] == s6 && rs[7] == s7 && rs[8] == s8 && rs[9] == s9
                && rs[10] == s10 && rs[11] == s11 && rs[12] == s12);
            assert(self.bus_log() =~= pre.bus_log() + config_fields_frames(rs));
        }
        Ok(())
    }

    /// Write the geometry/timing registers of bring-up, in their fixed
    /// order.
    fn init_geometry(&mut self) -> (r: Res<(), SPI, CS>)
        requires
            old(self).cfg().wf(),
        ensures
            r is Ok ==> final(self).emitted(old(self), geometry_frames(old(self).cfg())),
            r is Err ==> final(self).err_step(old(self)),
            r is Err ==> partial_of(
                old(self).bus_log(),
                final(self).bus_log(),
                geometry_frames(old(self).cfg()),
            ),
            !(r matches Err(Error::NotReady)),
            !is_pin_fault(r) ==> final(self).cs_released(old(self)),
    {
        let ghost pre = *old(self);
        let cfg = self.config();
        self.set_width_height(cfg.width, cfg.height)?;
        self.set_horiz_non_display(cfg.h_back_porch)?;
        self.set_horiz_start_pos(cfg.h_front_porch)?;
        self.set_horiz_pulse_width(cfg.h_sync_width)?;
        self.set_vert_non_display(cfg.v_back_porch)?;
        self.set_vert_start_pos(cfg.v_front_porch)?;
        self.set_vert_pulse_width(cfg.v_sync_width)?;
        proof {
            assert(self.bus_log() =~= pre.bus_log() + geometry_frames(pre.cfg()));
        }
        Ok(())
    }

    /// Configure the two color-format registers for `mode`, select
    /// linear addressing, and switch the panel on, in bring-up order.
    fn init_color_layout(&mut self, mode: ColorMode) -> (r: Res<(), SPI, CS>)
        ensures
            r is Ok ==> exists|cl: Seq<u8>|
                cl.len() == 6 && final(self).emitted(
                    old(self),
                    #[trigger] color_layout_frames(cl, mode),
                ),
            r is Err ==> final(self).err_step(old(self)),
            r is Err ==> cl_partial(old(self).bus_log(), final(self).bus_log(), mode),
            !(r matches Err(Error::NotReady)),
            !is_pin_fault(r) ==> final(self).cs_released(old(self)),
    {
        let ghost pre = *old(self);
        self.select_main_window_color_mode(mode)?;
        let ghost g0 = *self;
        self.memory_xy_mode()?;
        let ghost g1 = *self;
        self.memory_color_mode(mode)?;
        let ghost g2 = *self;
        self.select_main_window_color_mode(mode)?;
        let ghost g3 = *self;
        self.on(true)?;
        let ghost g4 = *self;
        self.select_main_window_color_mode(mode)?;
        proof {
            let c0 = choose|s: u8|
                g0.emitted(&pre, #[trigger] rmw_frames(0x10, s, main_window_color_bits(s, mode)));
            let c1 = choose|s: u8|
                g1.emitted(&g0, #[trigger] rmw_frames(0x5E, s, rmw_bits(s, 0x00, 0x04)));
            let c2 = choose|s: u8|
                g2.emitted(&g1, #[trigger] rmw_frames(0x5E, s, memory_color_bits(s, mode)));
            let c3 = choose|s: u8|
                g3.emitted(&g2, #[trigger] rmw_frames(0x10, s, main_window_color_bits(s, mode)));
            let c4 = choose|s: u8|
                g4.emitted(&g3, #[trigger] rmw_frames(0x12, s, display_on_bits(s, true)));
            let c5 = choose|s: u8|
                self.emitted(&g4, #[trigger] rmw_frames(0x10, s, main_window_color_bits(s, mode)));
            let cl = seq![c0, c1, c2, c3, c4, c5];
            assert(cl.len() == 6);
            assert(cl[0] == c0 && cl[1] == c1 && cl[2] == c2 && cl[3] == c3 && cl[4] == c4
                && cl[5] == c5);
            assert(self.bus_log() =~= pre.bus_log() + color_layout_frames(cl, mode));
        }
        Ok(())
    }

    /// Write the framebuffer setup of bring-up: main image, canvas and
    /// active window, all spanning the whole panel at address 0.
    fn init_framebuffer(&mut self) -> (r: Res<(), SPI, CS>)
        ensures
            r is Ok ==> final(self).emitted(old(self), framebuffer_frames(old(self).cfg())),
            r is Err ==> final(self).err_step(old(self)),
            r is Err ==> partial_of(
                old(self).bus_log(),
                final(self).bus_log(),
                framebuffer_frames(old(self).cfg()),
            ),
            !(r matches Err(Error::NotReady)),
            !is_pin_fault(r) ==> final(self).cs_released(old(self)),
    {
        let ghost pre = *old(self);
        let cfg = self.config();
        self.main_image(0, 0, 0, cfg.width)?;
        self.canvas_image(0, cfg.width)?;
        self.active_window(0, 0, cfg.width, cfg.height)?;
        proof {
            assert(self.bus_log() =~= pre.bus_log() + framebuffer_frames(pre.cfg()));
        }
        Ok(())
    }

    /// Run the whole bring-up sequence: temperature self-check, reset
    /// wait, clock synthesis, memory training, interface and format
    /// configuration, geometry, color mode, panel enable and framebuffer
    /// setup, in that fixed order.  On success the emitted traffic
    /// satisfies [`init_emits`] for the handle's configuration and
    /// recorded color mode; a failure at any state aborts the whole
    /// sequence and nothing is retried.
    #[verifier::rlimit(100)]
    #[verifier::spinoff_prover]
    pub fn init<D: Delay>(&mut self, delay: &mut D) -> (r: Res<(), SPI, CS>)
        requires
            old(self).cfg().wf(),
        ensures
            r is Ok ==> final(self).mode() == old(self).mode() && final(self).cfg() == old(
                self,
            ).cfg() && final(self).cs_released(old(self)) && init_emits(
                old(self).bus_log(),
                final(self).bus_log(),
                old(delay).waits(),
                final(delay).waits(),
                old(self).cfg(),
                old(self).mode(),
            ),
            r is Err ==> final(self).err_step(old(self)) && init_partial(
                old(self).bus_log(),
                final(self).bus_log(),
                old(self).cfg(),
                old(self).mode(),
            ),
            r matches Err(Error::NotReady) ==> init_notready(
                old(self).bus_log(),
                final(self).bus_log(),
                old(self).cfg().poll_limit,
            ),
            !is_pin_fault(r) ==> final(self).cs_released(old(self)),
    {
        let ghost pre = *old(self);
        let ghost dpre = *old(delay);
        let mode = self.color_mode();

        match self.system_check_temp(delay) {
            Ok(u) => u,
            Err(e) => {
                proof {
                    assert(init_partial(pre.bus_log(), self.bus_log(), pre.cfg(), pre.mode()));
                    if e is NotReady {
                        let t = choose|t: Seq<Frame>|
                            self.bus_log() == pre.bus_log() + t && #[trigger] temp_check_rounds(t);
                        assert(init_notready(pre.bus_log(), self.bus_log(), pre.cfg().poll_limit));
                    }
                }
                return Err(e);
            }
        };
        let ghost g_temp = *self;
        let ghost d_temp = *delay;
        delay.delay_ms(100);
        match self.wait_reset_cleared() {
            Ok(u) => u,
            Err(e) => {
                proof {
                    let t = choose|t: Seq<Frame>|
                        g_temp.emitted(&pre, t) && #[trigger] temp_check_trace(t) && d_temp.waits()
                            == dpre.waits() + temp_check_waits(t);
                    assert(g_temp.bus_log() == pre.bus_log() + t);
                    assert(poll_partial(pre.bus_log() + t, self.bus_log(), 0x02, true));
                    assert(init_partial(pre.bus_log(), self.bus_log(), pre.cfg(), pre.mode()));
                    if e is NotReady {
                        assert(init_notready(pre.bus_log(), self.bus_log(), pre.cfg().poll_limit));
                    }
                }
                return Err(e);
            }
        };
        let ghost g_p1 = *self;

        match self.pll_init(delay) {
            Ok(u) => u,
            Err(e) => {
                proof {
                    let t = choose|t: Seq<Frame>|
                        g_temp.emitted(&pre, t) && #[trigger] temp_check_trace(t) && d_temp.waits()
                            == dpre.waits() + temp_check_waits(t);
                    let p1 = choose|p: Seq<Frame>|
                        g_p1.emitted(&g_temp, p) && #[trigger] poll_trace(p, 0x02, true);
                    assert(g_p1.bus_log() == pre.bus_log() + t + p1);
                    assert(pll_partial(pre.bus_log() + t + p1, self.bus_log(), pre.cfg().scan_pll_n));
                    assert(init_partial(pre.bus_log(), self.bus_log(), pre.cfg(), pre.mode()));
                }
                return Err(e);
            }
        };
        let ghost g_pll = *self;
        match self.sdram_init(delay) {
            Ok(u) => u,
            Err(e) => {
                proof {
                    let t = choose|t: Seq<Frame>|
                        g_temp.emitted(&pre, t) && #[trigger] temp_check_trace(t) && d_temp.waits()
                            == dpre.waits() + temp_check_waits(t);
                    let p1 = choose|p: Seq<Frame>|
                        g_p1.emitted(&g_temp, p) && #[trigger] poll_trace(p, 0x02, true);
                    assert(g_pll.bus_log() == pre.bus_log() + t + p1 + pll_frames(
                        pre.cfg().scan_pll_n,
                    ));
                    assert(writes_then_poll_partial(
                        pre.bus_log() + t + p1 + pll_frames(pre.cfg().scan_pll_n),
                        self.bus_log(),
                        sdram_frames(),
                        0x04,
                        false,
                    ));
                    assert(init_partial(pre.bus_log(), self.bus_log(), pre.cfg(), pre.mode()));
                    if e is NotReady {
                        assert(init_notready(pre.bus_log(), self.bus_log(), pre.cfg().poll_limit));
                    }
                }
                return Err(e);
            }
        };
        let ghost g_sdram = *self;

        match self.init_config_fields() {
            Ok(u) => u,
            Err(e) => {
                proof {
                    let t = choose|t: Seq<Frame>|
                        g_temp.emitted(&pre, t) && #[trigger] temp_check_trace(t) && d_temp.waits()
                            == dpre.waits() + temp_check_waits(t);
                    let p1 = choose|p: Seq<Frame>|
                        g_p1.emitted(&g_temp, p) && #[trigger] poll_trace(p, 0x02, true);
                    let p2 = choose|p: Seq<Frame>|
                        g_sdram.emitted(&g_pll, sdram_frames() + p) && #[trigger] poll_trace(
                            p,
                            0x04,
                            false,
                        );
                    assert(g_sdram.bus_log() =~= pre.bus_log() + t + p1 + pll_frames(
                        pre.cfg().scan_pll_n,
                    ) + sdram_frames() + p2);
                    assert(cf_partial(g_sdram.bus_log(), self.bus_log()));
                    assert(init_partial(pre.bus_log(), self.bus_log(), pre.cfg(), pre.mode()));
                }
                return Err(e);
            }
        };
        let ghost g_cf = *self;
        match self.init_geometry() {
            Ok(u) => u,
            Err(e) => {
                proof {
                    let t = choose|t: Seq<Frame>|
                        g_temp.emitted(&pre, t) && #[trigger] temp_check_trace(t) && d_temp.waits()
                            == dpre.waits() + temp_check_waits(t);
                    let p1 = choose|p: Seq<Frame>|
                        g_p1.emitted(&g_temp, p) && #[trigger] poll_trace(p, 0x02, true);
                    let p2 = choose|p: Seq<Frame>|
                        g_sdram.emitted(&g_pll, sdram_frames() + p) && #[trigger] poll_trace(
                            p,
                            0x04,
                            false,
                        );
                    let rs = choose|rs: Seq<u8>|
                        rs.len() == 13 && g_cf.emitted(&g_sdram, #[trigger] config_fields_frames(rs));
                    assert(g_sdram.bus_log() =~= pre.bus_log() + t + p1 + pll_frames(
                        pre.cfg().scan_pll_n,
                    ) + sdram_frames() + p2);
                    assert(g_cf.bus_log() == g_sdram.bus_log() + config_fields_frames(rs));
                    assert(partial_of(g_cf.bus_log(), self.bus_log(), geometry_frames(pre.cfg())));
                    assert(init_partial(pre.bus_log(), self.bus_log(), pre.cfg(), pre.mode()));
                }
                return Err(e);
            }
        };
        let ghost g_geo = *self;
        match self.init_color_layout(mode) {
            Ok(u) => u,
            Err(e) => {
                proof {
                    let t = choose|t: Seq<Frame>|
                        g_temp.emitted(&pre, t) && #[trigger] temp_check_trace(t) && d_temp.waits()
                            == dpre.waits() + temp_check_waits(t);
                    let p1 = choose|p: Seq<Frame>|
                        g_p1.emitted(&g_temp, p) && #[trigger] poll_trace(p, 0x02, true);
                    let p2 = choose|p: Seq<Frame>|
                        g_sdram.emitted(&g_pll, sdram_frames() + p) && #[trigger] poll_trace(
                            p,
                            0x04,
                            false,
                        );
                    let rs = choose|rs: Seq<u8>|
                        rs.len() == 13 && g_cf.emitted(&g_sdram, #[trigger] config_fields_frames(rs));
                    assert(g_sdram.bus_log() =~= pre.bus_log() + t + p1 + pll_frames(
                        pre.cfg().scan_pll_n,
                    ) + sdram_frames() + p2);
                    assert(g_geo.bus_log() == g_sdram.bus_log() + config_fields_frames(rs)
                        + geometry_frames(pre.cfg()));
                    assert(cl_partial(g_geo.bus_log(), self.bus_log(), pre.mode()));
                    assert(init_partial(pre.bus_log(), self.bus_log(), pre.cfg(), pre.mode()));
                }
                return Err(e);
            }
        };
        let ghost g_cl = *self;
        match self.init_framebuffer() {
            Ok(u) => u,
            Err(e) => {
                proof {
                    let t = choose|t: Seq<Frame>|
                        g_temp.emitted(&pre, t) && #[trigger] temp_check_trace(t) && d_temp.waits()
                            == dpre.waits() + temp_check_waits(t);
                    let p1 = choose|p: Seq<Frame>|
                        g_p1.emitted(&g_temp, p) && #[trigger] poll_trace(p, 0x02, true);
                    let p2 = choose|p: Seq<Frame>|
                        g_sdram.emitted(&g_pll, sdram_frames() + p) && #[trigger] poll_trace(
                            p,
                            0x04,
                            false,
                        );
                    let rs = choose|rs: Seq<u8>|
                        rs.len() == 13 && g_cf.emitted(&g_sdram, #[trigger] config_fields_frames(rs));
                    let cl = choose|cl: Seq<u8>|
                        cl.len() == 6 && g_cl.emitted(&g_geo, #[trigger] color_layout_frames(cl, mode));
                    assert(g_sdram.bus_log() =~= pre.bus_log() + t + p1 + pll_frames(
                        pre.cfg().scan_pll_n,
                    ) + sdram_frames() + p2);
                    assert(g_cl.bus_log() == g_sdram.bus_log() + config_fields_frames(rs)
                        + geometry_frames(pre.cfg()) + color_layout_frames(cl, pre.mode()));
                    assert(partial_of(
                        g_cl.bus_log(),
                        self.bus_log(),
                        framebuffer_frames(pre.cfg()),
                    ));
                    assert(init_partial(pre.bus_log(), self.bus_log(), pre.cfg(), pre.mode()));
                }
                return Err(e);
            }
        };

        proof {
            let t = choose|t: Seq<Frame>|
                g_temp.emitted(&pre, t) && #[trigger] temp_check_trace(t) && d_temp.waits()
                    == dpre.waits() + temp_check_waits(t);
            let p1 = choose|p: Seq<Frame>|
                g_p1.emitted(&g_temp, p) && #[trigger] poll_trace(p, 0x02, true);
            let p2 = choose|p: Seq<Frame>|
                g_sdram.emitted(&g_pll, sdram_frames() + p) && #[trigger] poll_trace(
                    p,
                    0x04,
                    false,
                );
            let rs = choose|rs: Seq<u8>|
                rs.len() == 13 && g_cf.emitted(&g_sdram, #[trigger] config_fields_frames(rs));
            let cl = choose|cl: Seq<u8>|
                cl.len() == 6 && g_cl.emitted(&g_geo, #[trigger] color_layout_frames(cl, mode));
            assert(g_sdram.bus_log() =~= (g_pll.bus_log() + sdram_frames()) + p2);
            assert(self.bus_log() == pre.bus_log() + t + p1 + pll_frames(pre.cfg().scan_pll_n)
                + sdram_frames() + p2 + config_fields_frames(rs) + geometry_frames(pre.cfg())
                + color_layout_frames(cl, mode) + framebuffer_frames(pre.cfg()));
            assert(delay.waits() =~= dpre.waits() + temp_check_waits(t) + seq![
                100u16,
                1u16,
                1u16,
                1u16,
            ]);
            assert(init_emits(
                pre.bus_log(),
                self.bus_log(),
                dpre.waits(),
                delay.waits(),
                pre.cfg(),
                pre.mode(),
            ));
        }
        Ok(())
    }
}

} // verus!
