//! Compile-time pin mode tags.
//!
//! A pin's current configuration is part of its type: [`Output`],
//! [`Input<Floating>`] or [`Input<PullUp>`]. Mode transitions consume the old
//! pin value and hand back one with the new tag, so an operation that is
//! meaningless for the current configuration does not compile.

use core::marker::PhantomData;
use crate::sealed::Sealed;
use vstd::prelude::*;

verus! {

/// Any pin mode tag.
pub trait PinMode: Sealed {
}

/// A mode in which the pin is actively driven or read: any mode from which
/// the usual mode transitions are allowed.
pub trait Io: Sealed + PinMode {
}

/// The pin drives its level onto the wire.
pub struct Output;

impl PinMode for Output {
}

impl Io for Output {
}

impl Sealed for Output {
}

/// The flavour of an input: floating or with the internal pull-up enabled.
pub trait InputMode: Sealed {
}

/// The pin is an input of the given flavour.
pub struct Input<IMODE> {
    pub(crate) _imode: PhantomData<IMODE>,
}

impl<IMODE: InputMode> PinMode for Input<IMODE> {
}

impl<IMODE: InputMode> Io for Input<IMODE> {
}

impl<IMODE: InputMode> Sealed for Input<IMODE> {
}

/// Input without the internal pull-up: the level is whatever the wire holds.
pub struct Floating;

impl InputMode for Floating {
}

impl Sealed for Floating {
}

/// Input with the internal pull-up resistor enabled.
pub struct PullUp;

impl InputMode for PullUp {
}

impl Sealed for PullUp {
}

} // verus!
