//! The output pin as an owned capability.
//!
//! One GPIO bit drives the buzzer.  Instead of a raw pointer into a port
//! register shared across the program, the pin is an owned value created
//! once at system bring-up and held by the tone subsystem for its whole
//! lifetime, so no other code can drive the same bit.

use vstd::prelude::*;

verus! {

/// Exclusive ownership of one output pin: whoever holds this value is the
/// only writer of the underlying port bit.  The model tracks the driven
/// level directly.
#[derive(Clone, Copy, PartialEq, Eq, Structural, Debug)]
pub struct PinCapability {
    /// Whether the pin is currently driven high.
    pub high: bool,
}

impl PinCapability {
    /// Claims the pin at system bring-up; an output pin starts driven low.
    pub fn acquire() -> (p: Self)
        ensures
            !p.high,
    {
        PinCapability { high: false }
    }

    /// Inverts the driven level, as the compare-match handler does once
    /// per half period.
    pub fn toggle(&mut self)
        ensures
            final(self).high == !old(self).high,
    {
        self.high = !self.high;
    }

    /// Forces the pin to its inactive level, so a finished or stopped
    /// tone never leaves the buzzer stuck high.
    pub fn drive_low(&mut self)
        ensures
            !final(self).high,
    {
        self.high = false;
    }
}

} // verus!
