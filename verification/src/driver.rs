//! The controller handle: transport, register access and busy-wait
//! synchronization.
//!
//! Every operation states in its contract the exact bus traffic it emits
//! (see [`crate::frames`]).  The three standing clauses of each fallible
//! operation are:
//!
//! * on `Ok`, the bus log grew by exactly the stated frames and the
//!   chip-select line was left released;
//! * on any error, the already-emitted traffic is untouched (the log only
//!   grows) and the mode and configuration are unchanged;
//! * unless the failure was the control line itself, the chip-select
//!   line was restored high on the way out — including when the bus
//!   transfer in the middle of a transaction failed.

use vstd::prelude::*;
use crate::bus::{ChipSelect, Delay, Error, SpiBus, is_pin_fault};
use crate::color::ColorMode;
use crate::config::PanelConfig;
use crate::frames::{
    Frame, TAG_DATA, TAG_READ, TAG_SELECT, TAG_STATUS, dat_frame, drives_grow, ends_exhausted,
    is_data_read, is_status_poll, log_grows, partial_of, poll_exhausted, poll_hit, poll_partial,
    poll_trace, read_frame, recv_of, reg_write_frames, rmw_frames, rmw_partial, sel_frame,
    status_frame,
};
use crate::regs::{field_bits, rmw_bits};

verus! {

/// Result of a driver operation: the error carries the pin or bus fault
/// of the underlying capability, or reports a poll bound expiring.
pub type Res<T, SPI, CS> = Result<
    T,
    Error<<CS as ChipSelect>::PinError, <SPI as SpiBus>::BusError>,
>;

/// The controller handle.  It exclusively owns the bus and the
/// chip-select line — the chip tolerates no interleaved transactions
/// from another master — and records the active color-depth mode and the
/// panel configuration.
pub struct ER5517<SPI: SpiBus, CS: ChipSelect> {
    spi: SPI,
    cs: CS,
    color_mode: ColorMode,
    cfg: PanelConfig,
}

impl<SPI: SpiBus, CS: ChipSelect> ER5517<SPI, CS> {
    /// All frames the bus has carried.
    pub closed spec fn bus_log(&self) -> Seq<Frame> {
        self.spi.log()
    }

    /// All levels the chip-select line has been driven to.
    pub closed spec fn cs_drives(&self) -> Seq<bool> {
        self.cs.drives()
    }

    /// The active color-depth mode.
    pub closed spec fn mode(&self) -> ColorMode {
        self.color_mode
    }

    /// The panel configuration the handle was built with.
    pub closed spec fn cfg(&self) -> PanelConfig {
        self.cfg
    }

    /// The operation left the chip-select line as it found it or
    /// released (high): it never exits with the chip still selected.
    pub open spec fn cs_released(&self, pre: &Self) -> bool {
        &&& drives_grow(pre.cs_drives(), self.cs_drives())
        &&& (self.cs_drives() == pre.cs_drives() || self.cs_drives().last() == true)
    }

    /// The operation emitted exactly `fs` on the bus, released the
    /// chip-select line, and changed neither mode nor configuration.
    pub open spec fn emitted(&self, pre: &Self, fs: Seq<Frame>) -> bool {
        &&& self.bus_log() == pre.bus_log() + fs
        &&& self.cs_released(pre)
        &&& self.mode() == pre.mode()
        &&& self.cfg() == pre.cfg()
    }

    /// What every failed operation still guarantees: emitted traffic is
    /// final (the log only grows), and mode and configuration are
    /// untouched.
    pub open spec fn err_step(&self, pre: &Self) -> bool {
        &&& log_grows(pre.bus_log(), self.bus_log())
        &&& drives_grow(pre.cs_drives(), self.cs_drives())
        &&& self.mode() == pre.mode()
        &&& self.cfg() == pre.cfg()
    }

    /// Take ownership of the bus and chip-select line.  The handle
    /// starts in 24-bit mode with the default 800x480 configuration.
    pub fn new(spi: SPI, cs: CS) -> (out: Self)
        ensures
            out.bus_log() == spi.log(),
            out.cs_drives() == cs.drives(),
            out.mode() == ColorMode::TwentyFourBit,
            out.cfg() == crate::config::default_800x480(),
    {
        let cfg = PanelConfig::wide_800x480();
        ER5517 { spi, cs, color_mode: ColorMode::TwentyFourBit, cfg }
    }

    /// Take ownership of the bus and chip-select line for an explicit
    /// panel configuration and initial color mode.
    pub fn new_with(spi: SPI, cs: CS, cfg: PanelConfig, color_mode: ColorMode) -> (out: Self)
        requires
            cfg.wf(),
        ensures
            out.bus_log() == spi.log(),
            out.cs_drives() == cs.drives(),
            out.mode() == color_mode,
            out.cfg() == cfg,
    {
        ER5517 { spi, cs, color_mode, cfg }
    }

    /// The color-depth mode the handle currently records.
    pub fn color_mode(&self) -> (m: ColorMode)
        ensures
            m == self.mode(),
    {
        self.color_mode
    }

    /// Whether the recorded color-depth mode is `m`.
    pub(crate) fn mode_is(&self, m: ColorMode) -> (b: bool)
        ensures
            b == (self.mode() == m),
    {
        self.color_mode == m
    }

    /// Record a new color-depth mode on the handle; no bus traffic.
    pub(crate) fn set_mode_field(&mut self, m: ColorMode)
        ensures
            final(self).mode() == m,
            final(self).bus_log() == old(self).bus_log(),
            final(self).cs_drives() == old(self).cs_drives(),
            final(self).cfg() == old(self).cfg(),
    {
        self.color_mode = m;
    }

    /// The panel configuration the handle was built with.
    pub fn config(&self) -> (c: PanelConfig)
        ensures
            c == self.cfg(),
    {
        self.cfg
    }

    /// Give the bus and the chip-select line back, e.g. to inspect a
    /// simulated bus after a test run.
    pub fn release(self) -> (out: (SPI, CS))
        ensures
            out.0.log() == self.bus_log(),
            out.1.drives() == self.cs_drives(),
    {
        (self.spi, self.cs)
    }

    /// One chip-select-scoped write transaction of the frame
    /// `[tag, val]`.  The line is driven low, the bytes are transferred,
    /// and the line is restored high on every exit path — also when the
    /// transfer itself fails.
    pub(crate) fn frame_write(&mut self, tag: u8, val: u8) -> (r: Res<(), SPI, CS>)
        ensures
            r is Ok ==> final(self).emitted(
                old(self),
                seq![Frame::Write { tag, val }],
            ) && final(self).cs_drives() == old(self).cs_drives() + seq![false, true],
            r is Err ==> final(self).err_step(old(self)) && partial_of(
                old(self).bus_log(),
                final(self).bus_log(),
                seq![Frame::Write { tag, val }],
            ),
            !(r matches Err(Error::NotReady)),
            !is_pin_fault(r) ==> final(self).cs_released(old(self)),
    {
        let ghost pre = *old(self);
        match self.cs.set_low() {
            Ok(u) => u,
            Err(e) => {
                return Err(Error::Pin(e));
            }
        };
        let wr = self.spi.write_two(tag, val);
        match self.cs.set_high() {
            Ok(u) => u,
            Err(e) => {
                return Err(Error::Pin(e));
            }
        };
        proof {
            assert(self.cs.drives() =~= pre.cs.drives() + seq![false, true]);
        }
        match wr {
            Ok(u) => {
                proof {
                    assert(self.spi.log() =~= pre.spi.log() + seq![Frame::Write { tag, val }]);
                }
                Ok(u)
            }
            Err(e) => Err(Error::SPI(e)),
        }
    }

    /// One chip-select-scoped full-duplex transaction of the frame
    /// `[tag, sent]`, returning the second received byte.  The same
    /// restore guarantee as [`Self::frame_write`].
    pub(crate) fn frame_exchange(&mut self, tag: u8, sent: u8) -> (r: Res<u8, SPI, CS>)
        ensures
            r matches Ok(recv) ==> final(self).emitted(
                old(self),
                seq![Frame::Exchange { tag, sent, recv }],
            ) && final(self).cs_drives() == old(self).cs_drives() + seq![false, true],
            r is Err ==> final(self).err_step(old(self)) && final(self).bus_log().len()
                <= old(self).bus_log().len() + 1,
            r is Err && final(self).bus_log().len() > old(self).bus_log().len() ==> (final(self).bus_log().last() matches Frame::Exchange {
                tag: t2,
                sent: s2,
                ..
            } && t2 == tag && s2 == sent),
            !(r matches Err(Error::NotReady)),
            !is_pin_fault(r) ==> final(self).cs_released(old(self)),
    {
        let ghost pre = *old(self);
        match self.cs.set_low() {
            Ok(u) => u,
            Err(e) => {
                return Err(Error::Pin(e));
            }
        };
        let ex = self.spi.exchange_two(tag, sent);
        match self.cs.set_high() {
            Ok(u) => u,
            Err(e) => {
                return Err(Error::Pin(e));
            }
        };
        proof {
            assert(self.cs.drives() =~= pre.cs.drives() + seq![false, true]);
        }
        match ex {
            Ok(recv) => {
                proof {
                    assert(self.spi.log() =~= pre.spi.log() + seq![
                        Frame::Exchange { tag, sent, recv },
                    ]);
                }
                Ok(recv)
            }
            Err(e) => Err(Error::SPI(e)),
        }
    }

    /// Select the command/register `cmd`: emits the frame `[0x00, cmd]`.
    pub fn cmd_write(&mut self, cmd: u8) -> (r: Res<(), SPI, CS>)
        ensures
            r is Ok ==> final(self).emitted(old(self), seq![sel_frame(cmd)]) && final(self).cs_drives() == old(self).cs_drives() + seq![false, true],
            r is Err ==> final(self).err_step(old(self)) && partial_of(
                old(self).bus_log(),
                final(self).bus_log(),
                seq![sel_frame(cmd)],
            ),
            !(r matches Err(Error::NotReady)),
            !is_pin_fault(r) ==> final(self).cs_released(old(self)),
    {
        self.frame_write(TAG_SELECT, cmd)
    }

    /// Write one byte to the selected register: emits `[0x80, data]`.
    pub fn data_write(&mut self, data: u8) -> (r: Res<(), SPI, CS>)
        ensures
            r is Ok ==> final(self).emitted(old(self), seq![dat_frame(data)]) && final(self).cs_drives() == old(self).cs_drives() + seq![false, true],
            r is Err ==> final(self).err_step(old(self)) && partial_of(
                old(self).bus_log(),
                final(self).bus_log(),
                seq![dat_frame(data)],
            ),
            !(r matches Err(Error::NotReady)),
            !is_pin_fault(r) ==> final(self).cs_released(old(self)),
    {
        self.frame_write(TAG_DATA, data)
    }

    /// Read the status register: exchanges the 2-byte frame
    /// `[0x40, 0x00]` and returns the second response byte verbatim —
    /// the returned value is exactly the byte recorded in the logged
    /// frame.
    pub fn status_read(&mut self) -> (r: Res<u8, SPI, CS>)
        ensures
            r matches Ok(s) ==> final(self).emitted(old(self), seq![status_frame(s)]) && final(self).cs_drives() == old(self).cs_drives() + seq![false, true],
            r is Err ==> final(self).err_step(old(self)) && final(self).bus_log().len()
                <= old(self).bus_log().len() + 1,
            r is Err && final(self).bus_log().len() > old(self).bus_log().len()
                ==> is_status_poll(final(self).bus_log().last()),
            !(r matches Err(Error::NotReady)),
            !is_pin_fault(r) ==> final(self).cs_released(old(self)),
    {
        self.frame_exchange(TAG_STATUS, 0x00)
    }

    /// Read one byte from the selected register: exchanges the 2-byte
    /// frame `[0xC0, 0x00]` and returns the second response byte
    /// verbatim.
    pub fn data_read(&mut self) -> (r: Res<u8, SPI, CS>)
        ensures
            r matches Ok(d) ==> final(self).emitted(old(self), seq![read_frame(d)]) && final(self).cs_drives() == old(self).cs_drives() + seq![false, true],
            r is Err ==> final(self).err_step(old(self)) && final(self).bus_log().len()
                <= old(self).bus_log().len() + 1,
            r is Err && final(self).bus_log().len() > old(self).bus_log().len()
                ==> is_data_read(final(self).bus_log().last()),
            !(r matches Err(Error::NotReady)),
            !is_pin_fault(r) ==> final(self).cs_released(old(self)),
    {
        self.frame_exchange(TAG_READ, 0x00)
    }

    /// The universal two-step register write: emits exactly
    /// `[0x00, cmd]` then `[0x80, data]`, with no interleaving frames.
    pub fn register_write(&mut self, cmd: u8, data: u8) -> (r: Res<(), SPI, CS>)
        ensures
            r is Ok ==> final(self).emitted(old(self), reg_write_frames(cmd, data)) && final(self).cs_drives() == old(self).cs_drives() + seq![false, true, false, true],
            r is Err ==> final(self).err_step(old(self)) && partial_of(
                old(self).bus_log(),
                final(self).bus_log(),
                reg_write_frames(cmd, data),
            ),
            !(r matches Err(Error::NotReady)),
            !is_pin_fault(r) ==> final(self).cs_released(old(self)),
    {
        let ghost pre = *old(self);
        self.cmd_write(cmd)?;
        self.data_write(data)?;
        proof {
            assert(self.bus_log() =~= pre.bus_log() + reg_write_frames(cmd, data));
            assert(self.cs_drives() =~= pre.cs_drives() + seq![false, true, false, true]);
        }
        Ok(())
    }

    /// Spin on the status register until the bits of `mask` are all zero
    /// (`want_zero`) or not all zero, re-reading at most
    /// `cfg().poll_limit` times.  On success the emitted traffic is a
    /// poll trace: every read missed the condition except the last.  If
    /// the bound expires the wait reports `NotReady` after exactly
    /// `poll_limit` missed reads.
    pub(crate) fn wait_status(&mut self, mask: u8, want_zero: bool) -> (r: Res<(), SPI, CS>)
        ensures
            r is Ok ==> exists|p: Seq<Frame>|
                final(self).emitted(old(self), p) && #[trigger] poll_trace(p, mask, want_zero),
            r is Err ==> final(self).err_step(old(self)) && poll_partial(
                old(self).bus_log(),
                final(self).bus_log(),
                mask,
                want_zero,
            ),
            r matches Err(Error::NotReady) ==> ends_exhausted(
                final(self).bus_log(),
                mask,
                want_zero,
                old(self).cfg().poll_limit,
            ),
            r matches Err(Error::NotReady) ==> exists|p: Seq<Frame>|
                final(self).emitted(old(self), p) && #[trigger] poll_exhausted(
                    p,
                    mask,
                    want_zero,
                    old(self).cfg().poll_limit,
                ),
            !is_pin_fault(r) ==> final(self).cs_released(old(self)),
    {
        let ghost pre = *old(self);
        let limit = self.cfg.poll_limit;
        let mut n: u32 = 0;
        let ghost mut p: Seq<Frame> = Seq::empty();
        while n < limit
            invariant
                pre == *old(self),
                self.mode() == pre.mode(),
                self.cfg() == pre.cfg(),
                limit == pre.cfg().poll_limit,
                n <= limit,
                self.bus_log() == pre.bus_log() + p,
                self.cs_released(&pre),
                p.len() == n,
                forall|i: int| 0 <= i < p.len() ==> is_status_poll(#[trigger] p[i]),
                forall|i: int|
                    0 <= i < p.len() ==> !poll_hit(recv_of(#[trigger] p[i]), mask, want_zero),
            decreases limit - n,
        {
            let s = match self.status_read() {
                Ok(s) => s,
                Err(e) => {
                    return Err(e);
                }
            };
            proof {
                assert(pre.bus_log() + (p + seq![status_frame(s)]) =~= (pre.bus_log() + p)
                    + seq![status_frame(s)]);
                p = p + seq![status_frame(s)];
            }
            let done = if want_zero {
                s & mask == 0
            } else {
                s & mask != 0
            };
            if done {
                proof {
                    assert(poll_trace(p, mask, want_zero));
                }
                return Ok(());
            }
            n = n + 1;
        }
        proof {
            assert(poll_exhausted(p, mask, want_zero, pre.cfg().poll_limit));
        }
        Err(Error::NotReady)
    }

    /// Read-modify-write of one register: select `reg`, read it back,
    /// raise the `set` bits, drop the `clear` bits, and write the result.
    pub(crate) fn rmw_set_clear(&mut self, reg: u8, set: u8, clear: u8) -> (r: Res<(), SPI, CS>)
        ensures
            r is Ok ==> exists|s: u8|
                final(self).emitted(
                    old(self),
                    #[trigger] rmw_frames(reg, s, rmw_bits(s, set, clear)),
                ),
            r is Ok ==> final(self).bus_log().len() == old(self).bus_log().len() + 3
                && rmw_partial(
                old(self).bus_log(),
                final(self).bus_log(),
                reg,
                |s: u8| rmw_bits(s, set, clear),
            ),
            r is Err ==> final(self).err_step(old(self)) && rmw_partial(
                old(self).bus_log(),
                final(self).bus_log(),
                reg,
                |s: u8| rmw_bits(s, set, clear),
            ),
            !(r matches Err(Error::NotReady)),
            !is_pin_fault(r) ==> final(self).cs_released(old(self)),
    {
        let ghost pre = *old(self);
        self.cmd_write(reg)?;
        let s = self.data_read()?;
        let v = (s | set) & !clear;
        self.data_write(v)?;
        proof {
            assert(self.bus_log() =~= pre.bus_log() + rmw_frames(reg, s, rmw_bits(s, set, clear)));
        }
        Ok(())
    }

    /// Read-modify-write of one register field: select `reg`, read it
    /// back, replace the bits of `mask` by `value`, and write the result.
    pub(crate) fn rmw_field(&mut self, reg: u8, mask: u8, value: u8) -> (r: Res<(), SPI, CS>)
        ensures
            r is Ok ==> exists|s: u8|
                final(self).emitted(
                    old(self),
                    #[trigger] rmw_frames(reg, s, field_bits(s, mask, value)),
                ),
            r is Ok ==> final(self).bus_log().len() == old(self).bus_log().len() + 3
                && rmw_partial(
                old(self).bus_log(),
                final(self).bus_log(),
                reg,
                |s: u8| field_bits(s, mask, value),
            ),
            r is Err ==> final(self).err_step(old(self)) && rmw_partial(
                old(self).bus_log(),
                final(self).bus_log(),
                reg,
                |s: u8| field_bits(s, mask, value),
            ),
            !(r matches Err(Error::NotReady)),
            !is_pin_fault(r) ==> final(self).cs_released(old(self)),
    {
        let ghost pre = *old(self);
        self.cmd_write(reg)?;
        let s = self.data_read()?;
        let v = (s & !mask) | value;
        self.data_write(v)?;
        proof {
            assert(self.bus_log() =~= pre.bus_log() + rmw_frames(reg, s, field_bits(s, mask, value)));
        }
        Ok(())
    }

    /// Block until the 2-D draw engine is idle: poll until status bit
    /// `0x08` clears.
    pub fn busy_draw(&mut self) -> (r: Res<(), SPI, CS>)
        ensures
            r is Ok ==> exists|p: Seq<Frame>|
                final(self).emitted(old(self), p) && #[trigger] poll_trace(p, 0x08, true),
            r is Err ==> final(self).err_step(old(self)) && poll_partial(
                old(self).bus_log(),
                final(self).bus_log(),
                0x08,
                true,
            ),
            r matches Err(Error::NotReady) ==> ends_exhausted(
                final(self).bus_log(),
                0x08,
                true,
                old(self).cfg().poll_limit,
            ),
            r matches Err(Error::NotReady) ==> exists|p: Seq<Frame>|
                final(self).emitted(old(self), p) && #[trigger] poll_exhausted(
                    p,
                    0x08,
                    true,
                    old(self).cfg().poll_limit,
                ),
            !is_pin_fault(r) ==> final(self).cs_released(old(self)),
    {
        self.wait_status(0x08, true)
    }

    /// Block until the write FIFO has room: poll until status bit `0x80`
    /// clears.
    pub fn check_mem_wr_fifo_ready(&mut self) -> (r: Res<(), SPI, CS>)
        ensures
            r is Ok ==> exists|p: Seq<Frame>|
                final(self).emitted(old(self), p) && #[trigger] poll_trace(p, 0x80, true),
            r is Err ==> final(self).err_step(old(self)) && poll_partial(
                old(self).bus_log(),
                final(self).bus_log(),
                0x80,
                true,
            ),
            r matches Err(Error::NotReady) ==> ends_exhausted(
                final(self).bus_log(),
                0x80,
                true,
                old(self).cfg().poll_limit,
            ),
            r matches Err(Error::NotReady) ==> exists|p: Seq<Frame>|
                final(self).emitted(old(self), p) && #[trigger] poll_exhausted(
                    p,
                    0x80,
                    true,
                    old(self).cfg().poll_limit,
                ),
            !is_pin_fault(r) ==> final(self).cs_released(old(self)),
    {
        self.wait_status(0x80, true)
    }

    /// Block until the memory controller reports trained: poll until
    /// status bit `0x04` is set.
    pub(crate) fn sdram_check_ready(&mut self) -> (r: Res<(), SPI, CS>)
        ensures
            r is Ok ==> exists|p: Seq<Frame>|
                final(self).emitted(old(self), p) && #[trigger] poll_trace(p, 0x04, false),
            r is Err ==> final(self).err_step(old(self)) && poll_partial(
                old(self).bus_log(),
                final(self).bus_log(),
                0x04,
                false,
            ),
            r matches Err(Error::NotReady) ==> ends_exhausted(
                final(self).bus_log(),
                0x04,
                false,
                old(self).cfg().poll_limit,
            ),
            r matches Err(Error::NotReady) ==> exists|p: Seq<Frame>|
                final(self).emitted(old(self), p) && #[trigger] poll_exhausted(
                    p,
                    0x04,
                    false,
                    old(self).cfg().poll_limit,
                ),
            !is_pin_fault(r) ==> final(self).cs_released(old(self)),
    {
        self.wait_status(0x04, false)
    }

    /// Block until the chip leaves reset/self-check: poll until status
    /// bit `0x02` clears.
    pub(crate) fn wait_reset_cleared(&mut self) -> (r: Res<(), SPI, CS>)
        ensures
            r is Ok ==> exists|p: Seq<Frame>|
                final(self).emitted(old(self), p) && #[trigger] poll_trace(p, 0x02, true),
            r is Err ==> final(self).err_step(old(self)) && poll_partial(
                old(self).bus_log(),
                final(self).bus_log(),
                0x02,
                true,
            ),
            r matches Err(Error::NotReady) ==> ends_exhausted(
                final(self).bus_log(),
                0x02,
                true,
                old(self).cfg().poll_limit,
            ),
            r matches Err(Error::NotReady) ==> exists|p: Seq<Frame>|
                final(self).emitted(old(self), p) && #[trigger] poll_exhausted(
                    p,
                    0x02,
                    true,
                    old(self).cfg().poll_limit,
                ),
            !is_pin_fault(r) ==> final(self).cs_released(old(self)),
    {
        self.wait_status(0x02, true)
    }
}

} // verus!
