//! Capability traits for the hardware the driver depends on.
//!
//! The controller chip sits behind a shared serial bus gated by a
//! dedicated chip-select line, and bring-up needs a blocking delay.
//! The driver is generic over these three capabilities so that its logic
//! can be verified once against their contracts and exercised against
//! the simulated implementations in [`crate::sim`]; an application
//! supplies adapters over its real bus and pin types.
//!
//! Each trait carries a ghost history (the frames a bus has carried, the
//! levels a pin has been driven to).  An implementation decides what that
//! history is for its own representation and must prove that its methods
//! extend it exactly as stated here.

use vstd::prelude::*;
use crate::frames::Frame;

verus! {

/// How a driver operation failed.
///
/// `Pin` is a control-line fault: the chip-select line could not be
/// driven.  `SPI` is a bus fault: the underlying transfer failed.
/// `NotReady` reports that a status poll reached its configured bound
/// without the chip reaching the required state.  Every failure is
/// terminal for the in-flight operation; the driver never retries.
pub enum Error<P, S> {
    Pin(P),
    SPI(S),
    NotReady,
}

/// True when `r` reports a control-line fault.  On every other outcome
/// the driver has left the chip-select line released (driven high).
pub open spec fn is_pin_fault<T, P, S>(r: Result<T, Error<P, S>>) -> bool {
    r matches Err(Error::Pin(_))
}

/// A serial bus that moves one 2-byte frame per call.
///
/// `log()` is the history of frames the bus has carried, oldest first.
/// A frame counts as carried only when the call returns `Ok`; a failed
/// call leaves the history unchanged.
pub trait SpiBus: Sized {
    /// The implementation's transfer error.
    type BusError;

    /// All frames this bus has carried, in order.  A verified
    /// implementation overrides this with its own history; the default
    /// only spares unverified adapters from naming a ghost item.
    open spec fn log(&self) -> Seq<Frame> {
        Seq::empty()
    }

    /// Transmit the two bytes `[tag, val]`.
    fn write_two(&mut self, tag: u8, val: u8) -> (r: Result<(), Self::BusError>)
        ensures
            r is Ok ==> final(self).log() == old(self).log().push(
                Frame::Write { tag, val },
            ),
            r is Err ==> final(self).log() == old(self).log(),
    ;

    /// Full-duplex transfer: transmit `[tag, sent]` and return the second
    /// received byte.
    fn exchange_two(&mut self, tag: u8, sent: u8) -> (r: Result<u8, Self::BusError>)
        ensures
            r matches Ok(recv) ==> final(self).log() == old(self).log().push(
                Frame::Exchange { tag, sent, recv },
            ),
            r is Err ==> final(self).log() == old(self).log(),
    ;
}

/// The chip-select control line.
///
/// `drives()` is the history of levels the line was successfully driven
/// to (`false` = low = selected, `true` = high = released).  A failed
/// drive leaves the history unchanged; nothing is assumed about the
/// electrical level after a fault.
pub trait ChipSelect: Sized {
    /// The implementation's drive error.
    type PinError;

    /// All levels this line has been driven to, in order.  A verified
    /// implementation overrides this with its own history; the default
    /// only spares unverified adapters from naming a ghost item.
    open spec fn drives(&self) -> Seq<bool> {
        Seq::empty()
    }

    /// Drive the line low, selecting the chip.
    fn set_low(&mut self) -> (r: Result<(), Self::PinError>)
        ensures
            r is Ok ==> final(self).drives() == old(self).drives().push(false),
            r is Err ==> final(self).drives() == old(self).drives(),
    ;

    /// Drive the line high, releasing the chip.
    fn set_high(&mut self) -> (r: Result<(), Self::PinError>)
        ensures
            r is Ok ==> final(self).drives() == old(self).drives().push(true),
            r is Err ==> final(self).drives() == old(self).drives(),
    ;
}

/// A blocking millisecond delay.
///
/// `waits()` is the history of delays performed, in order, as their
/// millisecond values.  Real time is not modeled; the history lets a
/// contract state that a mandatory settle delay was in fact performed,
/// and with which value.
pub trait Delay: Sized {
    /// All delays performed so far, in order.  A verified
    /// implementation overrides this with its own history; the default
    /// only spares unverified adapters from naming a ghost item.
    open spec fn waits(&self) -> Seq<u16> {
        Seq::empty()
    }

    /// Block for at least `ms` milliseconds.
    fn delay_ms(&mut self, ms: u16)
        ensures
            final(self).waits() == old(self).waits().push(ms),
    ;
}

} // verus!
