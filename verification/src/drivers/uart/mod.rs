use vstd::prelude::*;

pub mod rp235x_pl011_uart;

verus! {

#[derive(Copy, Clone, Debug, PartialEq, Eq, Structural)]
pub enum Parity {
    /// No parity bit.
    Off,
    Even,
    Odd,
}

/// Line settings of a UART.
#[derive(Copy, Clone, Debug, PartialEq, Eq, Structural)]
pub struct Config {
    pub baudrate: u32,
    pub data_bits: u8,
    pub stop_bits: u8,
    pub parity: Parity,
    pub clock_hz: u32,
    pub eable_irq: bool,
}

impl Default for Config {
    /// 115200 baud, 8 data bits, 1 stop bit, no parity, a 150 MHz clock and
    /// the receive interrupt on.
    fn default() -> (c: Self)
        ensures
            c == (Config {
                baudrate: 115_200,
                data_bits: 8,
                stop_bits: 1,
                parity: Parity::Off,
                clock_hz: 150_000_000,
                eable_irq: true,
            }),
    {
        Config {
            baudrate: 115_200,
            data_bits: 8,
            stop_bits: 1,
            parity: Parity::Off,
            clock_hz: 150_000_000,
            eable_irq: true,
        }
    }
}

/// A configurable UART.
pub trait Uart {
    /// Configure the uart
    fn config(&self, config: &Config);
}

} // verus!
