//! Ownership tokens for the physical ports and the SPI peripheral.
//!
//! A token is a zero-size proof of ownership of one hardware resource.
//! Consuming it (in [`crate::pins::Pins::new`] or [`crate::spi::Spi::new`])
//! guarantees that no second live value drives the same resource. Issuing
//! each token at most once per process is the duty of the board entry point
//! that wraps this library; [`Peripherals::new`] itself mints one full set.

use vstd::prelude::*;

verus! {

/// Ownership of port B.
pub struct PORTB {
    pub(crate) _private: (),
}

/// Ownership of port C.
pub struct PORTC {
    pub(crate) _private: (),
}

/// Ownership of port D.
pub struct PORTD {
    pub(crate) _private: (),
}

/// Ownership of the SPI peripheral.
pub struct SPI {
    pub(crate) _private: (),
}

/// One ownership token per hardware resource of the board.
pub struct Peripherals {
    pub portb: PORTB,
    pub portc: PORTC,
    pub portd: PORTD,
    pub spi: SPI,
}

impl Peripherals {
    /// Mint the full token set. The caller (the board entry point) must call
    /// this at most once per process; handing out a second set would let two
    /// pin values alias one physical pin.
    pub fn new() -> Peripherals {
        Peripherals {
            portb: PORTB { _private: () },
            portc: PORTC { _private: () },
            portd: PORTD { _private: () },
            spi: SPI { _private: () },
        }
    }
}

} // verus!
