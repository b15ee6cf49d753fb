//! Board support: the pin plans of the supported boards and the interrupt
//! table of the RP2350.
pub mod boards;
pub mod mcu;
