//! Verified core of a small RP2350 real-time system: driver register
//! arithmetic, bus framing, the CYW43439 WLAN protocol state and the shell.

pub mod bits;
pub mod error;
pub mod wire;
pub mod drivers;
pub mod apps;
pub mod services;
pub mod bsp;
