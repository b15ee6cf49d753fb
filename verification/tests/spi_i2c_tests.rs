use minirtos::drivers::i2c::rp235x_i2c::{
    activity, i2c_read_request, read_cmds, rx_poll, scl_counts, tx_not_full as i2c_tx_not_full,
    write_cmds, write_read_cmds, I2cId, Rp235xI2c, Rp235xI2cInner, RxPoll, IC_CON_MASTER_FAST,
    config_steps, target_steps, I2cReg, I2cStep,
};
use minirtos::drivers::i2c::I2cConfig;
use minirtos::drivers::spi::rp235x_pl022_spi::{
    busy, clock_divisors, rx_not_empty, spi_config_regs, spi_reset_bits, transfer_len, tx_not_full,
    Pl022Spi, Pl022SpiInner, SpiId, SpiReg, SpiRegs, SpiStep,
};
use minirtos::drivers::spi::{SpiConfig, SpiMode};
use minirtos::error::DevError;

#[test]
fn spi_clock_divisors_are_the_first_that_reach_the_target() {
    assert_eq!(clock_divisors(15), (2, 7));
    assert_eq!(clock_divisors(6), (2, 2));
    assert_eq!(clock_divisors(1), (2, 0));
    assert_eq!(clock_divisors(0), (2, 0));
    assert_eq!(clock_divisors(600), (4, 149));
    assert_eq!(clock_divisors(254 * 256), (254, 255));
    assert_eq!(clock_divisors(254 * 256 + 1), (2, 0));
}

#[test]
fn spi_registers() {
    assert_eq!(spi_config_regs(&SpiConfig::default()), SpiRegs { cr0: 0x707, cpsr: 2, cr1: 2 });
    let c = SpiConfig { baudrate: 25_000_000, mode: SpiMode::Mode3, bits_per_word: 16, ..SpiConfig::default() };
    assert_eq!(spi_config_regs(&c), SpiRegs { cr0: 0x2cf, cpsr: 2, cr1: 2 });
    let m1 = SpiConfig { mode: SpiMode::Mode1, ..SpiConfig::default() };
    assert_eq!(spi_config_regs(&m1).cr0, 0x787);
}

#[test]
fn spi_resets_and_flags() {
    assert_eq!(spi_reset_bits(SpiId::SPI0), (1 << 18, 1 << 19));
    assert_eq!(spi_reset_bits(SpiId::SPI1), (1 << 19, 1 << 19));
    assert!(tx_not_full(2) && !tx_not_full(1));
    assert!(rx_not_empty(4) && !rx_not_empty(2));
    assert!(busy(16) && !busy(15));
    assert_eq!(transfer_len(3, 5), 3);
    assert_eq!(transfer_len(6, 5), 5);
    assert_eq!(Pl022Spi::new(SpiId::SPI1).inner.id(), SpiId::SPI1);
}

#[test]
fn i2c_clock_counts() {
    assert_eq!(scl_counts(&I2cConfig::default()), (187, 188));
    assert_eq!(scl_counts(&I2cConfig { clk_sys: 150_000_000, baudrate: 100_000 }), (750, 750));
    let w = |reg, value| I2cStep::Write { reg, value };
    assert_eq!(
        Rp235xI2c::new(I2cId::I2C0).config(&I2cConfig::default()),
        vec![
            w(I2cReg::Enable, 0),
            w(I2cReg::Con, 0x65),
            w(I2cReg::Tar, 0),
            w(I2cReg::FsSclHcnt, 187),
            w(I2cReg::FsSclLcnt, 188),
            w(I2cReg::Enable, 1),
        ]
    );
    assert_eq!(config_steps(&I2cConfig { clk_sys: 150_000_000, baudrate: 100_000 })[3], w(I2cReg::FsSclHcnt, 750));
    assert_eq!(
        target_steps(0x5d),
        vec![w(I2cReg::Enable, 0), I2cStep::WaitDisabled, w(I2cReg::Tar, 0x5d), w(I2cReg::Enable, 1)]
    );
    assert_eq!(IC_CON_MASTER_FAST, 0x65);
}

#[test]
fn i2c_command_words() {
    assert_eq!(write_cmds(&[1, 2, 3]), vec![1, 2, 3 + 512]);
    assert_eq!(write_cmds(&[]), vec![]);
    assert_eq!(read_cmds(2), vec![256, 256 + 512]);
    assert_eq!(read_cmds(1), vec![256 + 512]);
    assert_eq!(write_read_cmds(&[0x81, 0x4e], 2), vec![0x81, 0x4e, 256 + 1024, 256 + 512]);
    assert_eq!(write_read_cmds(&[7], 1), vec![7, 256 + 512 + 1024]);
}

#[test]
fn i2c_receive_polling() {
    assert_eq!(rx_poll(8, 0, 5), Ok(RxPoll::Ready));
    assert_eq!(rx_poll(8, 0x40, 1), Ok(RxPoll::Ready));
    assert_eq!(rx_poll(0, 0x40, 5), Err(DevError::Io));
    assert_eq!(rx_poll(0, 0, 1), Err(DevError::Timeout));
    assert_eq!(rx_poll(0, 0, 5), Ok(RxPoll::Wait { remaining: 4 }));
}

#[test]
fn i2c_flags_and_requests() {
    assert!(i2c_tx_not_full(2) && !i2c_tx_not_full(1));
    assert!(activity(1) && !activity(2));
    assert_eq!(i2c_read_request(&[0x14, 0]), Ok(0x14));
    assert_eq!(i2c_read_request(&[0x14]), Err(DevError::InvalidArg));
    assert_eq!(Rp235xI2cInner::new(I2cId::I2C0).reset_mask(), 0x10);
    assert_eq!(Rp235xI2cInner::new(I2cId::I2C1).reset_mask(), 0x20);
}

#[test]
fn spi_config_order() {
    let (regs, steps) = Pl022SpiInner::new(SpiId::SPI0).config(&SpiConfig::default());
    assert_eq!(regs, SpiRegs { cr0: 0x707, cpsr: 2, cr1: 2 });
    assert_eq!(
        steps,
        vec![
            SpiStep::ClearBits { reg: SpiReg::Cr1, mask: 2 },
            SpiStep::Write { reg: SpiReg::Cr0, value: 0x07 },
            SpiStep::Write { reg: SpiReg::Cpsr, value: 2 },
            SpiStep::Write { reg: SpiReg::Cr0, value: 0x707 },
            SpiStep::Write { reg: SpiReg::Cr1, value: 2 },
        ]
    );
}
