//! The sealing trait for the pin-mode hierarchy: the module is private, so
//! no type outside this crate can pose as a pin mode.

use vstd::prelude::*;

verus! {

pub trait Sealed {
}

} // verus!
