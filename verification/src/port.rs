//! The register capability interface ([`PinOps`]) and the typed pin.
//!
//! [`Pin<MODE, PIN>`] binds one concrete pin resource to a compile-time mode
//! tag. Mode transitions consume the pin and return it re-tagged, issuing
//! exactly one direction/pull register write; level operations are only
//! available on the tag they are meaningful for.

use core::marker::PhantomData;
use crate::mode;
use crate::registers::{
    DynamicPort, PortRegisters, RegisterBank, reg_in_get, reg_make_input, reg_make_output, reg_out_clear,
    reg_out_get, reg_out_set, reg_out_toggle, spec_in_get, spec_make_input, spec_make_output,
    spec_out_clear, spec_out_get, spec_out_set, spec_out_toggle,
};
use vstd::prelude::*;

verus! {

/// Capability interface for one physical pin: every operation is a single
/// read or read-modify-write of one register of the pin's port, restricted
/// to the pin's one-bit mask.
pub trait PinOps: Sized {
    /// The port whose registers this pin lives in.
    spec fn spec_port(&self) -> DynamicPort;

    /// The pin's one-bit register mask.
    spec fn spec_mask(&self) -> u8;

    /// The pin identifies a real bit: its mask has exactly one bit set.
    spec fn wf(&self) -> bool;

    /// Erase the pin's static identity into a (port, mask) value with the
    /// same register-level behaviour.
    fn into_dynamic(self) -> (d: Dynamic)
        requires
            self.wf(),
        ensures
            d.dyn_wf(),
            d.dyn_port() == self.spec_port(),
            d.dyn_mask() == self.spec_mask(),
    ;

    /// Set the output latch bit.
    fn out_set(&mut self, bank: &mut RegisterBank)
        requires
            old(self).wf(),
        ensures
            *final(self) == *old(self),
            *final(bank) == old(bank).with_port(
                old(self).spec_port(),
                spec_out_set(old(bank).port(old(self).spec_port()), old(self).spec_mask()),
            ),
    ;

    /// Clear the output latch bit.
    fn out_clear(&mut self, bank: &mut RegisterBank)
        requires
            old(self).wf(),
        ensures
            *final(self) == *old(self),
            *final(bank) == old(bank).with_port(
                old(self).spec_port(),
                spec_out_clear(old(bank).port(old(self).spec_port()), old(self).spec_mask()),
            ),
    ;

    /// Toggle the output latch bit.
    fn out_toggle(&mut self, bank: &mut RegisterBank)
        requires
            old(self).wf(),
        ensures
            *final(self) == *old(self),
            *final(bank) == old(bank).with_port(
                old(self).spec_port(),
                spec_out_toggle(old(bank).port(old(self).spec_port()), old(self).spec_mask()),
            ),
    ;

    /// Read back the output latch bit.
    fn out_get(&self, bank: &RegisterBank) -> (b: bool)
        requires
            self.wf(),
        ensures
            b == spec_out_get(bank.port(self.spec_port()), self.spec_mask()),
    ;

    /// Read the input bit.
    fn in_get(&self, bank: &RegisterBank) -> (b: bool)
        requires
            self.wf(),
        ensures
            b == spec_in_get(bank.port(self.spec_port()), self.spec_mask()),
    ;

    /// Switch the pin's direction to output.
    fn make_output(&mut self, bank: &mut RegisterBank)
        requires
            old(self).wf(),
        ensures
            *final(self) == *old(self),
            *final(bank) == old(bank).with_port(
                old(self).spec_port(),
                spec_make_output(old(bank).port(old(self).spec_port()), old(self).spec_mask()),
            ),
    ;

    /// Switch the pin's direction to input, with or without the internal
    /// pull-up.
    fn make_input(&mut self, bank: &mut RegisterBank, pull_up: bool)
        requires
            old(self).wf(),
        ensures
            *final(self) == *old(self),
            *final(bank) == old(bank).with_port(
                old(self).spec_port(),
                spec_make_input(old(bank).port(old(self).spec_port()), old(self).spec_mask(), pull_up),
            ),
    ;
}

/// A single-bit mask: exactly one bit set.
pub open spec fn single_bit(mask: u8) -> bool {
    exists|i: u8| i < 8 && mask == (1u8 << i)
}

/// A type-erased pin: a port name and a one-bit mask. Every capability
/// operation dispatches over the port name and performs the same register
/// access the concrete pin would have, restricted to the stored mask.
pub struct Dynamic {
    port: DynamicPort,
    // The mask rather than the pin number, so each access is a plain
    // mask application with no shift.
    mask: u8,
}

impl Dynamic {
    /// The port this erased pin dispatches to.
    pub closed spec fn dyn_port(&self) -> DynamicPort {
        self.port
    }

    /// The stored one-bit mask.
    pub closed spec fn dyn_mask(&self) -> u8 {
        self.mask
    }

    /// The mask has exactly one bit set.
    pub open spec fn dyn_wf(&self) -> bool {
        single_bit(self.dyn_mask())
    }

    pub(crate) fn new(port: DynamicPort, pin_num: u8) -> (d: Dynamic)
        requires
            pin_num < 8,
        ensures
            d.dyn_port() == port,
            d.dyn_mask() == (1u8 << pin_num),
            d.dyn_wf(),
    {
        Dynamic { port, mask: 1u8 << pin_num }
    }
}

impl PinOps for Dynamic {
    open spec fn spec_port(&self) -> DynamicPort {
        self.dyn_port()
    }

    open spec fn spec_mask(&self) -> u8 {
        self.dyn_mask()
    }

    open spec fn wf(&self) -> bool {
        self.dyn_wf()
    }

    fn into_dynamic(self) -> (d: Dynamic) {
        self
    }

    fn out_set(&mut self, bank: &mut RegisterBank) {
        match self.port {
            DynamicPort::B => reg_out_set(&mut bank.b, self.mask),
            DynamicPort::C => reg_out_set(&mut bank.c, self.mask),
            DynamicPort::D => reg_out_set(&mut bank.d, self.mask),
        }
    }

    fn out_clear(&mut self, bank: &mut RegisterBank) {
        match self.port {
            DynamicPort::B => reg_out_clear(&mut bank.b, self.mask),
            DynamicPort::C => reg_out_clear(&mut bank.c, self.mask),
            DynamicPort::D => reg_out_clear(&mut bank.d, self.mask),
        }
    }

    fn out_toggle(&mut self, bank: &mut RegisterBank) {
        match self.port {
            DynamicPort::B => reg_out_toggle(&mut bank.b, self.mask),
            DynamicPort::C => reg_out_toggle(&mut bank.c, self.mask),
            DynamicPort::D => reg_out_toggle(&mut bank.d, self.mask),
        }
    }

    fn out_get(&self, bank: &RegisterBank) -> (b: bool) {
        match self.port {
            DynamicPort::B => reg_out_get(&bank.b, self.mask),
            DynamicPort::C => reg_out_get(&bank.c, self.mask),
            DynamicPort::D => reg_out_get(&bank.d, self.mask),
        }
    }

    fn in_get(&self, bank: &RegisterBank) -> (b: bool) {
        match self.port {
            DynamicPort::B => reg_in_get(&bank.b, self.mask),
            DynamicPort::C => reg_in_get(&bank.c, self.mask),
            DynamicPort::D => reg_in_get(&bank.d, self.mask),
        }
    }

    fn make_output(&mut self, bank: &mut RegisterBank) {
        match self.port {
            DynamicPort::B => reg_make_output(&mut bank.b, self.mask),
            DynamicPort::C => reg_make_output(&mut bank.c, self.mask),
            DynamicPort::D => reg_make_output(&mut bank.d, self.mask),
        }
    }

    fn make_input(&mut self, bank: &mut RegisterBank, pull_up: bool) {
        match self.port {
            DynamicPort::B => reg_make_input(&mut bank.b, self.mask, pull_up),
            DynamicPort::C => reg_make_input(&mut bank.c, self.mask, pull_up),
            DynamicPort::D => reg_make_input(&mut bank.d, self.mask, pull_up),
        }
    }
}

/// One pin resource tagged with its current mode.
pub struct Pin<MODE, PIN> {
    pub(crate) pin: PIN,
    pub(crate) _mode: PhantomData<MODE>,
}

impl<MODE, PIN: PinOps> Pin<MODE, PIN> {
    /// The port whose registers this pin lives in.
    pub closed spec fn spec_port(&self) -> DynamicPort {
        self.pin.spec_port()
    }

    /// The pin's one-bit register mask.
    pub closed spec fn spec_mask(&self) -> u8 {
        self.pin.spec_mask()
    }

    /// The underlying pin resource.
    pub closed spec fn spec_pin(&self) -> PIN {
        self.pin
    }

    /// The pin identifies a real bit of its port.
    pub closed spec fn wf(&self) -> bool {
        self.pin.wf()
    }
}

impl<PIN: PinOps> Pin<mode::Input<mode::Floating>, PIN> {
    /// Wrap a fresh pin resource. The hardware reset state leaves every pin
    /// a floating input, so the new pin carries that tag; no register is
    /// written.
    pub fn new(pin: PIN) -> (r: Self)
        ensures
            r.spec_pin() == pin,
            r.wf() == pin.wf(),
            r.spec_port() == pin.spec_port(),
            r.spec_mask() == pin.spec_mask(),
    {
        Pin { pin, _mode: PhantomData }
    }
}

impl<PIN: PinOps, MODE: mode::Io> Pin<MODE, PIN> {
    /// Reconfigure the pin as an output: one write setting its direction
    /// bit. The latch, and with it the driven level, is left as it was.
    pub fn into_output(self, bank: &mut RegisterBank) -> (r: Pin<mode::Output, PIN>)
        requires
            self.wf(),
        ensures
            r.spec_pin() == self.spec_pin(),
            r.wf() && r.spec_port() == self.spec_port() && r.spec_mask() == self.spec_mask(),
            *final(bank) == old(bank).with_port(
                self.spec_port(),
                spec_make_output(old(bank).port(self.spec_port()), self.spec_mask()),
            ),
    {
        let mut pin = self.pin;
        pin.make_output(bank);
        Pin { pin, _mode: PhantomData }
    }

    /// Reconfigure the pin as a floating input: clear its direction bit,
    /// then clear its latch bit so the internal pull-up is off.
    pub fn into_floating_input(self, bank: &mut RegisterBank) -> (r: Pin<
        mode::Input<mode::Floating>,
        PIN,
    >)
        requires
            self.wf(),
        ensures
            r.spec_pin() == self.spec_pin(),
            r.wf() && r.spec_port() == self.spec_port() && r.spec_mask() == self.spec_mask(),
            *final(bank) == old(bank).with_port(
                self.spec_port(),
                spec_make_input(old(bank).port(self.spec_port()), self.spec_mask(), false),
            ),
    {
        let mut pin = self.pin;
        pin.make_input(bank, false);
        Pin { pin, _mode: PhantomData }
    }

    /// Reconfigure the pin as an input with the internal pull-up: clear its
    /// direction bit, then set its latch bit, which with the direction bit
    /// clear enables the pull-up.
    pub fn into_pull_up_input(self, bank: &mut RegisterBank) -> (r: Pin<
        mode::Input<mode::PullUp>,
        PIN,
    >)
        requires
            self.wf(),
        ensures
            r.spec_pin() == self.spec_pin(),
            r.wf() && r.spec_port() == self.spec_port() && r.spec_mask() == self.spec_mask(),
            *final(bank) == old(bank).with_port(
                self.spec_port(),
                spec_make_input(old(bank).port(self.spec_port()), self.spec_mask(), true),
            ),
    {
        let mut pin = self.pin;
        pin.make_input(bank, true);
        Pin { pin, _mode: PhantomData }
    }

    /// Erase the pin's static identity, keeping the mode tag. No register is
    /// written; the erased pin acts on the same port and mask.
    pub fn downgrade(self) -> (r: Pin<MODE, Dynamic>)
        requires
            self.wf(),
        ensures
            r.wf() && r.spec_port() == self.spec_port() && r.spec_mask() == self.spec_mask(),
    {
        Pin { pin: self.pin.into_dynamic(), _mode: PhantomData }
    }
}

impl<PIN: PinOps> Pin<mode::Output, PIN> {
    /// Drive the pin high: set its latch bit.
    pub fn set_high(&mut self, bank: &mut RegisterBank)
        requires
            old(self).wf(),
        ensures
            *final(self) == *old(self),
            *final(bank) == old(bank).with_port(
                old(self).spec_port(),
                spec_out_set(old(bank).port(old(self).spec_port()), old(self).spec_mask()),
            ),
    {
        self.pin.out_set(bank)
    }

    /// Drive the pin low: clear its latch bit.
    pub fn set_low(&mut self, bank: &mut RegisterBank)
        requires
            old(self).wf(),
        ensures
            *final(self) == *old(self),
            *final(bank) == old(bank).with_port(
                old(self).spec_port(),
                spec_out_clear(old(bank).port(old(self).spec_port()), old(self).spec_mask()),
            ),
    {
        self.pin.out_clear(bank)
    }

    /// Invert the driven level: toggle the latch bit.
    pub fn toggle(&mut self, bank: &mut RegisterBank)
        requires
            old(self).wf(),
        ensures
            *final(self) == *old(self),
            *final(bank) == old(bank).with_port(
                old(self).spec_port(),
                spec_out_toggle(old(bank).port(old(self).spec_port()), old(self).spec_mask()),
            ),
    {
        self.pin.out_toggle(bank)
    }

    /// Whether the pin is driven high: reads back the latch bit, not the
    /// wire.
    pub fn is_set_high(&self, bank: &RegisterBank) -> (b: bool)
        requires
            self.wf(),
        ensures
            b == spec_out_get(bank.port(self.spec_port()), self.spec_mask()),
    {
        self.pin.out_get(bank)
    }

    /// Whether the pin is driven low: the negation of the latch bit.
    pub fn is_set_low(&self, bank: &RegisterBank) -> (b: bool)
        requires
            self.wf(),
        ensures
            b == !spec_out_get(bank.port(self.spec_port()), self.spec_mask()),
    {
        !self.pin.out_get(bank)
    }
}

impl<PIN: PinOps, IMODE: mode::InputMode> Pin<mode::Input<IMODE>, PIN> {
    /// Whether the wire reads high.
    pub fn is_high(&self, bank: &RegisterBank) -> (b: bool)
        requires
            self.wf(),
        ensures
            b == spec_in_get(bank.port(self.spec_port()), self.spec_mask()),
    {
        self.pin.in_get(bank)
    }

    /// Whether the wire reads low.
    pub fn is_low(&self, bank: &RegisterBank) -> (b: bool)
        requires
            self.wf(),
        ensures
            b == !spec_in_get(bank.port(self.spec_port()), self.spec_mask()),
    {
        !self.pin.in_get(bank)
    }
}

/// Law: a freshly shifted mask `1 << n` is a valid pin mask — nonzero, with
/// exactly one bit set.
pub proof fn lemma_shifted_mask_single_bit(n: u8)
    requires
        n < 8,
    ensures
        single_bit(1u8 << n),
        (1u8 << n) != 0,
{
    assert(1u8 << n != 0) by (bit_vector)
        requires
            n < 8,
    ;
}

/// Law: after a pin is made an output and driven high, the latch reads back
/// high (so `is_set_high` is true and `is_set_low` is false), and toggling
/// the latch twice restores the registers exactly.
pub proof fn lemma_output_level_readback(r: PortRegisters, mask: u8)
    requires
        mask != 0,
    ensures
        spec_out_get(spec_out_set(spec_make_output(r, mask), mask), mask),
        !spec_out_get(spec_out_clear(spec_make_output(r, mask), mask), mask),
        spec_out_toggle(spec_out_toggle(r, mask), mask) == r,
{
    let l = r.latch;
    assert((l | mask) & mask != 0) by (bit_vector)
        requires
            mask != 0,
    ;
    assert((l & !mask) & mask == 0) by (bit_vector);
    assert((l ^ mask) ^ mask == l) by (bit_vector);
}

/// Law: becoming a floating input and then a pull-up input changes only the
/// pull configuration. The direction bit is clear in both states and the
/// second transition leaves the whole direction register as it was; the
/// latch bit is clear for floating and set for pull-up; the input register
/// is never written.
pub proof fn lemma_input_pull_encoding(r: PortRegisters, mask: u8)
    requires
        mask != 0,
    ensures
        spec_make_input(r, mask, false).dir & mask == 0,
        spec_make_input(spec_make_input(r, mask, false), mask, true).dir == spec_make_input(
            r,
            mask,
            false,
        ).dir,
        spec_make_input(r, mask, false).latch & mask == 0,
        spec_make_input(spec_make_input(r, mask, false), mask, true).latch & mask != 0,
        spec_make_input(spec_make_input(r, mask, false), mask, true).input == r.input,
{
    let d = r.dir;
    let l = r.latch;
    assert((d & !mask) & mask == 0) by (bit_vector);
    assert((d & !mask) & !mask == d & !mask) by (bit_vector);
    assert((l & !mask) & mask == 0) by (bit_vector);
    assert(((l & !mask) | mask) & mask != 0) by (bit_vector)
        requires
            mask != 0,
    ;
}

/// Law: two pins that agree on port and mask — in particular a concrete pin
/// and the erased pin `into_dynamic` makes of it, which preserves both —
/// take any register bank to the same new bank under every capability
/// operation, and read the same values from it.
pub proof fn lemma_erased_pin_acts_alike<A: PinOps, B: PinOps>(a: A, b: B, bank: RegisterBank)
    requires
        a.spec_port() == b.spec_port(),
        a.spec_mask() == b.spec_mask(),
    ensures
        bank.with_port(a.spec_port(), spec_out_set(bank.port(a.spec_port()), a.spec_mask()))
            == bank.with_port(b.spec_port(), spec_out_set(bank.port(b.spec_port()), b.spec_mask())),
        bank.with_port(a.spec_port(), spec_out_clear(bank.port(a.spec_port()), a.spec_mask()))
            == bank.with_port(
            b.spec_port(),
            spec_out_clear(bank.port(b.spec_port()), b.spec_mask()),
        ),
        bank.with_port(a.spec_port(), spec_out_toggle(bank.port(a.spec_port()), a.spec_mask()))
            == bank.with_port(
            b.spec_port(),
            spec_out_toggle(bank.port(b.spec_port()), b.spec_mask()),
        ),
        bank.with_port(a.spec_port(), spec_make_output(bank.port(a.spec_port()), a.spec_mask()))
            == bank.with_port(
            b.spec_port(),
            spec_make_output(bank.port(b.spec_port()), b.spec_mask()),
        ),
        forall|pull_up: bool|
            bank.with_port(
                a.spec_port(),
                spec_make_input(bank.port(a.spec_port()), a.spec_mask(), pull_up),
            ) == bank.with_port(
                b.spec_port(),
                spec_make_input(bank.port(b.spec_port()), b.spec_mask(), pull_up),
            ),
        spec_out_get(bank.port(a.spec_port()), a.spec_mask()) == spec_out_get(
            bank.port(b.spec_port()),
            b.spec_mask(),
        ),
        spec_in_get(bank.port(a.spec_port()), a.spec_mask()) == spec_in_get(
            bank.port(b.spec_port()),
            b.spec_mask(),
        ),
{
}

} // verus!
