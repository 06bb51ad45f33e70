//! Plain-value model of the memory-mapped I/O registers.
//!
//! Each port of the microcontroller exposes three byte-wide registers: the
//! output latch (`PORTx`), the input readings (`PINx`) and the data-direction
//! register (`DDRx`). The SPI peripheral exposes a control, a status and a
//! data register. Holding them as ordinary values makes every register
//! access explicit in a function's signature and lets the effect of each
//! operation be stated bit-exactly.

use vstd::prelude::*;

verus! {

/// The three byte-wide registers backing one I/O port.
pub struct PortRegisters {
    /// Output latch (`PORTx`). While a pin is an output this drives its
    /// level; while it is an input it enables the internal pull-up.
    pub latch: u8,
    /// Input readings (`PINx`). Written by the hardware, read by the core.
    pub input: u8,
    /// Data direction (`DDRx`). A set bit makes the pin an output.
    pub dir: u8,
}

/// The register files of the three I/O ports.
pub struct RegisterBank {
    pub b: PortRegisters,
    pub c: PortRegisters,
    pub d: PortRegisters,
}

/// Runtime name of one I/O port, used by type-erased pins to pick the
/// register file they act on.
#[derive(Clone, Copy, PartialEq, Eq, Structural, Debug)]
pub enum DynamicPort {
    B,
    C,
    D,
}

impl RegisterBank {
    /// The named port's register file.
    pub open spec fn port(self, p: DynamicPort) -> PortRegisters {
        match p {
            DynamicPort::B => self.b,
            DynamicPort::C => self.c,
            DynamicPort::D => self.d,
        }
    }

    /// This bank with the named port's register file replaced.
    pub open spec fn with_port(self, p: DynamicPort, r: PortRegisters) -> RegisterBank {
        match p {
            DynamicPort::B => RegisterBank { b: r, c: self.c, d: self.d },
            DynamicPort::C => RegisterBank { b: self.b, c: r, d: self.d },
            DynamicPort::D => RegisterBank { b: self.b, c: self.c, d: r },
        }
    }
}

/// The SPI peripheral's register file.
pub struct SpiRegisters {
    /// Control register (`SPCR`).
    pub spcr: u8,
    /// Status register (`SPSR`): transfer-complete flag and the
    /// double-speed bit.
    pub spsr: u8,
    /// Data register (`SPDR`): writing starts a transfer; after completion
    /// it holds the byte that was shifted in.
    pub spdr: u8,
}

impl PortRegisters {
    /// Registers in their hardware reset state: everything zero, so every
    /// pin is a floating input.
    pub fn new() -> (r: PortRegisters)
        ensures
            r.latch == 0,
            r.input == 0,
            r.dir == 0,
    {
        PortRegisters { latch: 0, input: 0, dir: 0 }
    }
}

impl RegisterBank {
    /// All three ports in their hardware reset state.
    pub fn new() -> (r: RegisterBank)
        ensures
            r.b == (PortRegisters { latch: 0, input: 0, dir: 0 }),
            r.c == (PortRegisters { latch: 0, input: 0, dir: 0 }),
            r.d == (PortRegisters { latch: 0, input: 0, dir: 0 }),
    {
        RegisterBank { b: PortRegisters::new(), c: PortRegisters::new(), d: PortRegisters::new() }
    }
}

impl SpiRegisters {
    /// The SPI registers in their hardware reset state.
    pub fn new() -> (r: SpiRegisters)
        ensures
            r.spcr == 0,
            r.spsr == 0,
            r.spdr == 0,
    {
        SpiRegisters { spcr: 0, spsr: 0, spdr: 0 }
    }
}

/// Port registers after the masked latch bits are set.
pub open spec fn spec_out_set(r: PortRegisters, mask: u8) -> PortRegisters {
    PortRegisters { latch: r.latch | mask, input: r.input, dir: r.dir }
}

/// Port registers after the masked latch bits are cleared.
pub open spec fn spec_out_clear(r: PortRegisters, mask: u8) -> PortRegisters {
    PortRegisters { latch: r.latch & !mask, input: r.input, dir: r.dir }
}

/// Port registers after the masked latch bits are toggled.
pub open spec fn spec_out_toggle(r: PortRegisters, mask: u8) -> PortRegisters {
    PortRegisters { latch: r.latch ^ mask, input: r.input, dir: r.dir }
}

/// Whether any masked latch bit reads back set.
pub open spec fn spec_out_get(r: PortRegisters, mask: u8) -> bool {
    r.latch & mask != 0
}

/// Whether any masked input bit reads set.
pub open spec fn spec_in_get(r: PortRegisters, mask: u8) -> bool {
    r.input & mask != 0
}

/// Port registers after the masked pins are switched to output.
pub open spec fn spec_make_output(r: PortRegisters, mask: u8) -> PortRegisters {
    PortRegisters { latch: r.latch, input: r.input, dir: r.dir | mask }
}

/// Port registers after the masked pins are switched to input.
///
/// The direction bit is cleared first; then the latch bit is set when the
/// internal pull-up is wanted and cleared for a floating input, since with
/// the direction bit clear the latch controls the pull-up.
pub open spec fn spec_make_input(r: PortRegisters, mask: u8, pull_up: bool) -> PortRegisters {
    PortRegisters {
        latch: if pull_up { r.latch | mask } else { r.latch & !mask },
        input: r.input,
        dir: r.dir & !mask,
    }
}

/// Set the masked latch bits: a read-modify-write of `PORTx`.
pub fn reg_out_set(r: &mut PortRegisters, mask: u8)
    ensures
        *final(r) == spec_out_set(*old(r), mask),
{
    r.latch = r.latch | mask;
}

/// Clear the masked latch bits: a read-modify-write of `PORTx`.
pub fn reg_out_clear(r: &mut PortRegisters, mask: u8)
    ensures
        *final(r) == spec_out_clear(*old(r), mask),
{
    r.latch = r.latch & !mask;
}

/// Toggle the masked latch bits. The hardware does this when the mask is
/// written to `PINx`; the model applies the effect directly.
pub fn reg_out_toggle(r: &mut PortRegisters, mask: u8)
    ensures
        *final(r) == spec_out_toggle(*old(r), mask),
{
    r.latch = r.latch ^ mask;
}

/// Read back the output latch restricted to the mask.
pub fn reg_out_get(r: &PortRegisters, mask: u8) -> (b: bool)
    ensures
        b == spec_out_get(*r, mask),
{
    r.latch & mask != 0
}

/// Read the input register restricted to the mask.
pub fn reg_in_get(r: &PortRegisters, mask: u8) -> (b: bool)
    ensures
        b == spec_in_get(*r, mask),
{
    r.input & mask != 0
}

/// Set the masked direction bits: a read-modify-write of `DDRx`.
pub fn reg_make_output(r: &mut PortRegisters, mask: u8)
    ensures
        *final(r) == spec_make_output(*old(r), mask),
{
    r.dir = r.dir | mask;
}

/// Switch the masked pins to input: clear the direction bits, then program
/// the pull-up through the latch (set for pull-up, clear for floating).
pub fn reg_make_input(r: &mut PortRegisters, mask: u8, pull_up: bool)
    ensures
        *final(r) == spec_make_input(*old(r), mask, pull_up),
{
    r.dir = r.dir & !mask;
    if pull_up {
        r.latch = r.latch | mask;
    } else {
        r.latch = r.latch & !mask;
    }
}

} // verus!
