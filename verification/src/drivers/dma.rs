use vstd::prelude::*;

verus! {

/// DMA channel assignment of the peripherals.
#[derive(Copy, Clone, Debug, PartialEq, Eq, Structural)]
pub enum DmaChannles {
    Spi0Tx,
    Spi0Rx,
    Spi1Tx,
    Spi1Rx,
    Uart0Tx,
    Uart0Rx,
    Uart1Tx,
    Uart1Rx,
    I2c0Tx,
    I2c0Rx,
    I2c1Tx,
    I2c1Rx,
}

/// The channel number of each assignment, in declaration order.
pub open spec fn dma_channel_number(c: DmaChannles) -> u8 {
    match c {
        DmaChannles::Spi0Tx => 0,
        DmaChannles::Spi0Rx => 1,
        DmaChannles::Spi1Tx => 2,
        DmaChannles::Spi1Rx => 3,
        DmaChannles::Uart0Tx => 4,
        DmaChannles::Uart0Rx => 5,
        DmaChannles::Uart1Tx => 6,
        DmaChannles::Uart1Rx => 7,
        DmaChannles::I2c0Tx => 8,
        DmaChannles::I2c0Rx => 9,
        DmaChannles::I2c1Tx => 10,
        DmaChannles::I2c1Rx => 11,
    }
}

impl DmaChannles {
    pub fn number(self) -> (n: u8)
        ensures
            n == dma_channel_number(self),
    {
        match self {
            DmaChannles::Spi0Tx => 0,
            DmaChannles::Spi0Rx => 1,
            DmaChannles::Spi1Tx => 2,
            DmaChannles::Spi1Rx => 3,
            DmaChannles::Uart0Tx => 4,
            DmaChannles::Uart0Rx => 5,
            DmaChannles::Uart1Tx => 6,
            DmaChannles::Uart1Rx => 7,
            DmaChannles::I2c0Tx => 8,
            DmaChannles::I2c0Rx => 9,
            DmaChannles::I2c1Tx => 10,
            DmaChannles::I2c1Rx => 11,
        }
    }
}

} // verus!
