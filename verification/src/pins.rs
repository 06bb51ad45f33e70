//! Board instantiation: one zero-size capability type per port, indexed by
//! bit position, and the [`Pins`] aggregate.
//!
//! This is the expansion of the board's declarative pin table: port B, C and
//! D each with their register file in the [`RegisterBank`], and one named
//! pin per physical pin, all starting in the hardware-default floating-input
//! mode. Building [`Pins`] consumes the one ownership token of each port, so
//! no physical pin can ever be aliased by two live pin values.

use crate::mode;
use crate::pac;
use crate::port::{Dynamic, Pin, PinOps};
use crate::registers::{
    DynamicPort, RegisterBank, reg_in_get, reg_make_input, reg_make_output, reg_out_clear,
    reg_out_get, reg_out_set, reg_out_toggle,
};
use vstd::prelude::*;

verus! {

/// Pin `N` of port B.
pub struct Pb<const N: u8> {
    pub(crate) _private: (),
}

/// Pin `N` of port C.
pub struct Pc<const N: u8> {
    pub(crate) _private: (),
}

/// Pin `N` of port D.
pub struct Pd<const N: u8> {
    pub(crate) _private: (),
}

impl<const N: u8> PinOps for Pb<N> {
    open spec fn spec_port(&self) -> DynamicPort {
        DynamicPort::B
    }

    open spec fn spec_mask(&self) -> u8 {
        1u8 << N
    }

    open spec fn wf(&self) -> bool {
        N < 8
    }

    fn into_dynamic(self) -> (d: Dynamic) {
        Dynamic::new(DynamicPort::B, N)
    }

    fn out_set(&mut self, bank: &mut RegisterBank) {
        reg_out_set(&mut bank.b, 1u8 << N)
    }

    fn out_clear(&mut self, bank: &mut RegisterBank) {
        reg_out_clear(&mut bank.b, 1u8 << N)
    }

    fn out_toggle(&mut self, bank: &mut RegisterBank) {
        reg_out_toggle(&mut bank.b, 1u8 << N)
    }

    fn out_get(&self, bank: &RegisterBank) -> (b: bool) {
        reg_out_get(&bank.b, 1u8 << N)
    }

    fn in_get(&self, bank: &RegisterBank) -> (b: bool) {
        reg_in_get(&bank.b, 1u8 << N)
    }

    fn make_output(&mut self, bank: &mut RegisterBank) {
        reg_make_output(&mut bank.b, 1u8 << N)
    }

    fn make_input(&mut self, bank: &mut RegisterBank, pull_up: bool) {
        reg_make_input(&mut bank.b, 1u8 << N, pull_up)
    }
}

impl<const N: u8> PinOps for Pc<N> {
    open spec fn spec_port(&self) -> DynamicPort {
        DynamicPort::C
    }

    open spec fn spec_mask(&self) -> u8 {
        1u8 << N
    }

    open spec fn wf(&self) -> bool {
        N < 8
    }

    fn into_dynamic(self) -> (d: Dynamic) {
        Dynamic::new(DynamicPort::C, N)
    }

    fn out_set(&mut self, bank: &mut RegisterBank) {
        reg_out_set(&mut bank.c, 1u8 << N)
    }

    fn out_clear(&mut self, bank: &mut RegisterBank) {
        reg_out_clear(&mut bank.c, 1u8 << N)
    }

    fn out_toggle(&mut self, bank: &mut RegisterBank) {
        reg_out_toggle(&mut bank.c, 1u8 << N)
    }

    fn out_get(&self, bank: &RegisterBank) -> (b: bool) {
        reg_out_get(&bank.c, 1u8 << N)
    }

    fn in_get(&self, bank: &RegisterBank) -> (b: bool) {
        reg_in_get(&bank.c, 1u8 << N)
    }

    fn make_output(&mut self, bank: &mut RegisterBank) {
        reg_make_output(&mut bank.c, 1u8 << N)
    }

    fn make_input(&mut self, bank: &mut RegisterBank, pull_up: bool) {
        reg_make_input(&mut bank.c, 1u8 << N, pull_up)
    }
}

impl<const N: u8> PinOps for Pd<N> {
    open spec fn spec_port(&self) -> DynamicPort {
        DynamicPort::D
    }

    open spec fn spec_mask(&self) -> u8 {
        1u8 << N
    }

    open spec fn wf(&self) -> bool {
        N < 8
    }

    fn into_dynamic(self) -> (d: Dynamic) {
        Dynamic::new(DynamicPort::D, N)
    }

    fn out_set(&mut self, bank: &mut RegisterBank) {
        reg_out_set(&mut bank.d, 1u8 << N)
    }

    fn out_clear(&mut self, bank: &mut RegisterBank) {
        reg_out_clear(&mut bank.d, 1u8 << N)
    }

    fn out_toggle(&mut self, bank: &mut RegisterBank) {
        reg_out_toggle(&mut bank.d, 1u8 << N)
    }

    fn out_get(&self, bank: &RegisterBank) -> (b: bool) {
        reg_out_get(&bank.d, 1u8 << N)
    }

    fn in_get(&self, bank: &RegisterBank) -> (b: bool) {
        reg_in_get(&bank.d, 1u8 << N)
    }

    fn make_output(&mut self, bank: &mut RegisterBank) {
        reg_make_output(&mut bank.d, 1u8 << N)
    }

    fn make_input(&mut self, bank: &mut RegisterBank, pull_up: bool) {
        reg_make_input(&mut bank.d, 1u8 << N, pull_up)
    }
}

/// One typed pin per physical pin of the board, all in the hardware-default
/// floating-input mode.
pub struct Pins {
    pub pb0: Pin<mode::Input<mode::Floating>, Pb<0>>,
    pub pb1: Pin<mode::Input<mode::Floating>, Pb<1>>,
    pub pb2: Pin<mode::Input<mode::Floating>, Pb<2>>,
    pub pb3: Pin<mode::Input<mode::Floating>, Pb<3>>,
    pub pb4: Pin<mode::Input<mode::Floating>, Pb<4>>,
    pub pb5: Pin<mode::Input<mode::Floating>, Pb<5>>,
    pub pc0: Pin<mode::Input<mode::Floating>, Pc<0>>,
    pub pc1: Pin<mode::Input<mode::Floating>, Pc<1>>,
    pub pc2: Pin<mode::Input<mode::Floating>, Pc<2>>,
    pub pc3: Pin<mode::Input<mode::Floating>, Pc<3>>,
    pub pc4: Pin<mode::Input<mode::Floating>, Pc<4>>,
    pub pc5: Pin<mode::Input<mode::Floating>, Pc<5>>,
    pub pd0: Pin<mode::Input<mode::Floating>, Pd<0>>,
    pub pd1: Pin<mode::Input<mode::Floating>, Pd<1>>,
    pub pd2: Pin<mode::Input<mode::Floating>, Pd<2>>,
    pub pd3: Pin<mode::Input<mode::Floating>, Pd<3>>,
    pub pd4: Pin<mode::Input<mode::Floating>, Pd<4>>,
    pub pd5: Pin<mode::Input<mode::Floating>, Pd<5>>,
    pub pd6: Pin<mode::Input<mode::Floating>, Pd<6>>,
    pub pd7: Pin<mode::Input<mode::Floating>, Pd<7>>,
}

impl Pins {
    /// Every pin is well formed and wired to its own bit of its own port.
    pub open spec fn wf(&self) -> bool {
        &&& self.pb0.wf() && self.pb0.spec_port() == DynamicPort::B && self.pb0.spec_mask() == 1u8
        &&& self.pb1.wf() && self.pb1.spec_port() == DynamicPort::B && self.pb1.spec_mask() == 2u8
        &&& self.pb2.wf() && self.pb2.spec_port() == DynamicPort::B && self.pb2.spec_mask() == 4u8
        &&& self.pb3.wf() && self.pb3.spec_port() == DynamicPort::B && self.pb3.spec_mask() == 8u8
        &&& self.pb4.wf() && self.pb4.spec_port() == DynamicPort::B && self.pb4.spec_mask()
            == 16u8
        &&& self.pb5.wf() && self.pb5.spec_port() == DynamicPort::B && self.pb5.spec_mask()
            == 32u8
        &&& self.pc0.wf() && self.pc0.spec_port() == DynamicPort::C && self.pc0.spec_mask() == 1u8
        &&& self.pc1.wf() && self.pc1.spec_port() == DynamicPort::C && self.pc1.spec_mask() == 2u8
        &&& self.pc2.wf() && self.pc2.spec_port() == DynamicPort::C && self.pc2.spec_mask() == 4u8
        &&& self.pc3.wf() && self.pc3.spec_port() == DynamicPort::C && self.pc3.spec_mask() == 8u8
        &&& self.pc4.wf() && self.pc4.spec_port() == DynamicPort::C && self.pc4.spec_mask()
            == 16u8
        &&& self.pc5.wf() && self.pc5.spec_port() == DynamicPort::C && self.pc5.spec_mask()
            == 32u8
        &&& self.pd0.wf() && self.pd0.spec_port() == DynamicPort::D && self.pd0.spec_mask() == 1u8
        &&& self.pd1.wf() && self.pd1.spec_port() == DynamicPort::D && self.pd1.spec_mask() == 2u8
        &&& self.pd2.wf() && self.pd2.spec_port() == DynamicPort::D && self.pd2.spec_mask() == 4u8
        &&& self.pd3.wf() && self.pd3.spec_port() == DynamicPort::D && self.pd3.spec_mask() == 8u8
        &&& self.pd4.wf() && self.pd4.spec_port() == DynamicPort::D && self.pd4.spec_mask()
            == 16u8
        &&& self.pd5.wf() && self.pd5.spec_port() == DynamicPort::D && self.pd5.spec_mask()
            == 32u8
        &&& self.pd6.wf() && self.pd6.spec_port() == DynamicPort::D && self.pd6.spec_mask()
            == 64u8
        &&& self.pd7.wf() && self.pd7.spec_port() == DynamicPort::D && self.pd7.spec_mask()
            == 128u8
    }

    /// Build the pin aggregate, consuming the ownership token of each port.
    /// Each token exists at most once, so at most one live value can own any
    /// physical pin. No register is written: the hardware reset state is
    /// already the floating-input mode every pin starts in.
    pub fn new(_portb: pac::PORTB, _portc: pac::PORTC, _portd: pac::PORTD) -> (r: Pins)
        ensures
            r.wf(),
    {
        proof {
            assert(1u8 << 0u8 == 1u8 && 1u8 << 1u8 == 2u8 && 1u8 << 2u8 == 4u8 && 1u8 << 3u8
                == 8u8 && 1u8 << 4u8 == 16u8 && 1u8 << 5u8 == 32u8 && 1u8 << 6u8 == 64u8 && 1u8
                << 7u8 == 128u8) by (bit_vector);
        }
        Pins {
            pb0: Pin::new(Pb::<0> { _private: () }),
            pb1: Pin::new(Pb::<1> { _private: () }),
            pb2: Pin::new(Pb::<2> { _private: () }),
            pb3: Pin::new(Pb::<3> { _private: () }),
            pb4: Pin::new(Pb::<4> { _private: () }),
            pb5: Pin::new(Pb::<5> { _private: () }),
            pc0: Pin::new(Pc::<0> { _private: () }),
            pc1: Pin::new(Pc::<1> { _private: () }),
            pc2: Pin::new(Pc::<2> { _private: () }),
            pc3: Pin::new(Pc::<3> { _private: () }),
            pc4: Pin::new(Pc::<4> { _private: () }),
            pc5: Pin::new(Pc::<5> { _private: () }),
            pd0: Pin::new(Pd::<0> { _private: () }),
            pd1: Pin::new(Pd::<1> { _private: () }),
            pd2: Pin::new(Pd::<2> { _private: () }),
            pd3: Pin::new(Pd::<3> { _private: () }),
            pd4: Pin::new(Pd::<4> { _private: () }),
            pd5: Pin::new(Pd::<5> { _private: () }),
            pd6: Pin::new(Pd::<6> { _private: () }),
            pd7: Pin::new(Pd::<7> { _private: () }),
        }
    }
}

} // verus!
