//! A verified model of a single-timer tone-generation subsystem.
//!
//! The library turns a requested square-wave frequency into an 8-bit timer
//! program (prescaler selection plus compare value), derives the number of
//! pin toggles a finite tone is allowed to make, and models the shared state
//! that a compare-match interrupt handler and the mainline code agree on:
//! the timer registers, the owned output pin, and the remaining toggle
//! budget.  A small display model covers the cursor and bus-frame layout of
//! a character display driven over a two-wire bus.

pub mod display;
pub mod encoder;
pub mod pin;
pub mod timer;
pub mod tone;
