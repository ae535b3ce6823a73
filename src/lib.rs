//! Register-level model of a small microcontroller's watchdog, clock gating,
//! pin multiplexing and bit-banded GPIO blocks, with every bit-field update
//! proved to touch only the bits it is meant to touch.

pub mod bits;
pub mod port;
pub mod watchdog;
pub mod sim;
