//! A teaching aid for long division by two: a sixteen-slot digit entry buffer
//! and the four-step state machine that walks through the division, both
//! expressed as state transitions that emit display commands.

pub mod display;
pub mod keys;
pub mod helper;
pub mod division;
pub mod laws;
