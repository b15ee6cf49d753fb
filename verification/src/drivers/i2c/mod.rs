use vstd::prelude::*;

use crate::error::DevError;

pub mod rp235x_i2c;

verus! {

/// Clocking of an I2C controller.
#[derive(Clone, Copy, Debug, PartialEq, Eq, Structural)]
pub struct I2cConfig {
    pub clk_sys: u32,
    pub baudrate: u32,
}

impl Default for I2cConfig {
    /// 400 kHz from a 150 MHz system clock.
    fn default() -> (c: Self)
        ensures
            c == (I2cConfig { baudrate: 400_000, clk_sys: 150_000_000 }),
    {
        I2cConfig { baudrate: 400_000, clk_sys: 150_000_000 }
    }
}

/// Transfers on an I2C bus.
pub trait I2cBus {
    fn write(&self, addr: u8, data: &[u8]) -> Result<(), DevError>;

    fn read(&self, addr: u8, data: &mut Vec<u8>) -> Result<usize, DevError>;

    fn write_read(&self, addr: u8, w_data: &[u8], r_data: &mut Vec<u8>) -> Result<(), DevError>;
}

} // verus!
