//! Hardware-abstraction layer for an AVR-style microcontroller's
//! general-purpose I/O pins and its SPI master peripheral.
//!
//! The memory-mapped control/status/data registers are represented as plain
//! values ([`registers::RegisterBank`], [`registers::SpiRegisters`]) so that
//! every operation's effect on the hardware state is stated in its contract
//! and proved. A harness (or the board support code) owns those values and
//! plays the part of the silicon: it supplies input readings and status bits.

pub mod mode;
pub mod pac;
pub mod pins;
pub mod spi;
pub mod port;
pub mod registers;
mod sealed;

use crate::pins::Pins;
use vstd::prelude::*;

verus! {

/// Everything the board hands to application code: the pin aggregate and
/// the SPI peripheral token.
pub struct Peripherals {
    pub pins: Pins,
    pub spi: pac::SPI,
}

impl Peripherals {
    /// Build the board's peripherals from the one set of ownership tokens.
    pub fn new(dp: pac::Peripherals) -> (r: Peripherals)
        ensures
            r.pins.wf(),
    {
        Peripherals { pins: Pins::new(dp.portb, dp.portc, dp.portd), spi: dp.spi }
    }
}

} // verus!
