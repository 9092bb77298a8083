//! Simulated bus, chip-select line and delay: verified in-memory
//! implementations of the capability traits, so the driver can be run
//! and its emitted traffic inspected without hardware.
//!
//! The simulated bus records every frame it carries and answers
//! exchanges from a scripted list of response bytes (and with `0` once
//! the script is exhausted).  Both the bus and the pin can be told to
//! fail their next calls, to exercise the driver's error paths.

use vstd::prelude::*;
use crate::bus::{ChipSelect, Delay, SpiBus};
use crate::frames::Frame;

verus! {

/// The simulated bus's transfer error.
#[derive(Clone, Copy, PartialEq, Eq, Structural, Debug)]
pub struct BusFault;

/// The simulated pin's drive error.
#[derive(Clone, Copy, PartialEq, Eq, Structural, Debug)]
pub struct PinFault;

/// A bus that records frames and answers exchanges from a script.
pub struct SimBus {
    frames: Vec<Frame>,
    responses: Vec<u8>,
    next_resp: usize,
    failures: usize,
    ok_calls: usize,
}

impl SimBus {
    /// A bus that will answer exchanges with `responses`, in order, and
    /// never fail.
    pub fn new(responses: Vec<u8>) -> (out: SimBus)
        ensures
            out.log() == Seq::<Frame>::empty(),
    {
        SimBus { frames: Vec::new(), responses, next_resp: 0, failures: 0, ok_calls: 0 }
    }

    /// A bus whose next `failures` calls fail before any frame is
    /// carried.
    pub fn with_failures(responses: Vec<u8>, failures: usize) -> (out: SimBus)
        ensures
            out.log() == Seq::<Frame>::empty(),
    {
        SimBus { frames: Vec::new(), responses, next_resp: 0, failures, ok_calls: 0 }
    }

    /// A bus that carries `ok_calls` frames normally, then fails the
    /// next `failures` calls: for exercising a fault in the middle of a
    /// multi-frame operation.
    pub fn failing_after(responses: Vec<u8>, ok_calls: usize, failures: usize) -> (out: SimBus)
        ensures
            out.log() == Seq::<Frame>::empty(),
    {
        SimBus { frames: Vec::new(), responses, next_resp: 0, failures, ok_calls }
    }

    /// The frames carried so far, oldest first.
    pub fn frames(&self) -> (r: &Vec<Frame>)
        ensures
            r@ == self.log(),
    {
        &self.frames
    }
}

impl SpiBus for SimBus {
    type BusError = BusFault;

    closed spec fn log(&self) -> Seq<Frame> {
        self.frames@
    }

    fn write_two(&mut self, tag: u8, val: u8) -> (r: Result<(), BusFault>) {
        if self.ok_calls > 0 {
            self.ok_calls = self.ok_calls - 1;
            self.frames.push(Frame::Write { tag, val });
            Ok(())
        } else if self.failures > 0 {
            self.failures = self.failures - 1;
            Err(BusFault)
        } else {
            self.frames.push(Frame::Write { tag, val });
            Ok(())
        }
    }

    fn exchange_two(&mut self, tag: u8, sent: u8) -> (r: Result<u8, BusFault>) {
        if self.ok_calls > 0 {
            self.ok_calls = self.ok_calls - 1;
            let recv: u8 = if self.next_resp < self.responses.len() {
                let v = self.responses[self.next_resp];
                self.next_resp = self.next_resp + 1;
                v
            } else {
                0
            };
            self.frames.push(Frame::Exchange { tag, sent, recv });
            Ok(recv)
        } else if self.failures > 0 {
            self.failures = self.failures - 1;
            Err(BusFault)
        } else {
            let recv: u8 = if self.next_resp < self.responses.len() {
                let v = self.responses[self.next_resp];
                self.next_resp = self.next_resp + 1;
                v
            } else {
                0
            };
            self.frames.push(Frame::Exchange { tag, sent, recv });
            Ok(recv)
        }
    }
}

/// A chip-select line that records every successful drive.
pub struct SimPin {
    levels: Vec<bool>,
    failures: usize,
}

impl SimPin {
    /// A pin that never fails.
    pub fn new() -> (out: SimPin)
        ensures
            out.drives() == Seq::<bool>::empty(),
    {
        SimPin { levels: Vec::new(), failures: 0 }
    }

    /// A pin whose next `failures` drives fail.
    pub fn with_failures(failures: usize) -> (out: SimPin)
        ensures
            out.drives() == Seq::<bool>::empty(),
    {
        SimPin { levels: Vec::new(), failures }
    }

    /// The levels driven so far (`false` = low/selected, `true` =
    /// high/released), oldest first.
    pub fn levels(&self) -> (r: &Vec<bool>)
        ensures
            r@ == self.drives(),
    {
        &self.levels
    }
}

impl ChipSelect for SimPin {
    type PinError = PinFault;

    closed spec fn drives(&self) -> Seq<bool> {
        self.levels@
    }

    fn set_low(&mut self) -> (r: Result<(), PinFault>) {
        if self.failures > 0 {
            self.failures = self.failures - 1;
            Err(PinFault)
        } else {
            self.levels.push(false);
            Ok(())
        }
    }

    fn set_high(&mut self) -> (r: Result<(), PinFault>) {
        if self.failures > 0 {
            self.failures = self.failures - 1;
            Err(PinFault)
        } else {
            self.levels.push(true);
            Ok(())
        }
    }
}

/// A delay that returns immediately but records every requested wait:
/// simulated time needs no waiting, and the record lets a test check
/// the mandatory settle delays of bring-up.
pub struct SimDelay {
    millis: Vec<u16>,
}

impl SimDelay {
    /// A fresh delay with an empty record.
    pub fn new() -> (out: SimDelay)
        ensures
            out.waits() == Seq::<u16>::empty(),
    {
        SimDelay { millis: Vec::new() }
    }

    /// The millisecond values of all delays performed, oldest first.
    pub fn recorded(&self) -> (r: &Vec<u16>)
        ensures
            r@ == self.waits(),
    {
        &self.millis
    }
}

impl Delay for SimDelay {
    closed spec fn waits(&self) -> Seq<u16> {
        self.millis@
    }

    fn delay_ms(&mut self, ms: u16) {
        self.millis.push(ms);
    }
}

} // verus!
