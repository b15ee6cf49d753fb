use vstd::prelude::*;

pub mod rp235x_pl022_spi;

verus! {

/// Clock polarity and phase.
#[derive(Clone, Copy, Debug, PartialEq, Eq, Structural)]
pub enum SpiMode {
    Mode0,
    Mode1,
    Mode2,
    Mode3,
}

#[derive(Clone, Copy, Debug, PartialEq, Eq, Structural)]
pub enum SpiBitOrder {
    MsbFirst,
    LsbFirst,
}

/// Bus settings of an SPI controller.
#[derive(Clone, Copy, Debug, PartialEq, Eq, Structural)]
pub struct SpiConfig {
    pub baudrate: u32,
    pub mode: SpiMode,
    pub bits_per_word: u8,
    pub bit_order: SpiBitOrder,
    pub clk_peri: u32,
}

impl Default for SpiConfig {
    /// 10 MHz, mode 0, 8-bit words, MSB first, a 150 MHz peripheral clock.
    fn default() -> (c: Self)
        ensures
            c == (SpiConfig {
                baudrate: 10_000_000,
                mode: SpiMode::Mode0,
                bits_per_word: 8,
                bit_order: SpiBitOrder::MsbFirst,
                clk_peri: 150_000_000,
            }),
    {
        SpiConfig {
            baudrate: 10_000_000,
            mode: SpiMode::Mode0,
            bits_per_word: 8,
            bit_order: SpiBitOrder::MsbFirst,
            clk_peri: 150_000_000,
        }
    }
}

/// A configurable SPI bus.
pub trait SpiBus {
    fn config(&self, config: &SpiConfig);
}

} // verus!
