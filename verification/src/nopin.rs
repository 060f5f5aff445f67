//! Zero-sized stand-in for an output pin.
//!
//! Use it for the boot slot of [`crate::Nina`] when the driver must not
//! drive `NINA_GPIO0` (for instance when that pin is handed over to the
//! chip as an interrupt line after reset). Every pin operation on it
//! succeeds and does nothing.
use vstd::prelude::*;

verus! {

/// No-op pin.
#[derive(Debug, Default, Clone, Copy, PartialEq, Eq, Structural)]
pub struct NoPin;

} // verus!
