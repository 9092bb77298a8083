//! Verified driver core for an ER5517-family LCD controller.
//!
//! The driver turns drawing requests (pixels, rectangles, color and
//! brightness changes) into framed register transactions over a shared
//! serial bus, and walks an uninitialized controller through a fixed
//! bring-up sequence into a displaying state.
//!
//! The bus, the chip-select line and the blocking delay are capability
//! traits ([`bus::SpiBus`], [`bus::ChipSelect`], [`bus::Delay`]); every
//! contract states the exact frame traffic an operation emits through
//! them.  [`sim`] provides verified in-memory implementations so the
//! driver can be exercised against a simulated bus.

use vstd::prelude::*;

pub mod bringup;
pub mod bus;
pub mod color;
pub mod config;
pub mod draw;
pub mod driver;
pub mod frames;
pub mod ops;
pub mod regs;
pub mod sim;

pub use bus::ChipSelect;
pub use bus::Delay;
pub use bus::Error;
pub use bus::SpiBus;
pub use color::ColorMode;
pub use config::LCD_HEIGHT;
pub use config::LCD_WIDTH;
pub use config::PanelConfig;
pub use config::Rect;
pub use driver::ER5517;
pub use frames::Frame;
pub use sim::BusFault;
pub use sim::PinFault;
pub use sim::SimBus;
pub use sim::SimDelay;
pub use sim::SimPin;

verus! {

} // verus!
