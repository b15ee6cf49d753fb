use minirtos::drivers::uart::rp235x_pl011_uart::{
    baud_divisors, clear_all_interrupts_value, cr_value, imsc_value, lcr_h_value, read_byte_decision,
    rx_data_byte, rx_fifo_empty, rx_interrupt_pending, rx_interrupts_clear_value, tx_busy, tx_fifo_full,
    Pl011Uart, Pl011UartInner, UartId,
};
use minirtos::drivers::uart::{Config, Parity};

#[test]
fn default_configuration() {
    let c = Config::default();
    assert_eq!(c.baudrate, 115_200);
    assert_eq!(c.data_bits, 8);
    assert_eq!(c.stop_bits, 1);
    assert_eq!(c.parity, Parity::Off);
    assert_eq!(c.clock_hz, 150_000_000);
}

#[test]
fn baud_rate_divisors() {
    assert_eq!(baud_divisors(150_000_000, 115_200), (81, 24));
    assert_eq!(baud_divisors(48_000_000, 9_600), (312, 32));
    let inner: Pl011UartInner<u32> = Pl011UartInner::new(UartId::UART0);
    assert_eq!(inner.config(&Config::default()), (81, 24));
}

#[test]
fn line_control() {
    assert_eq!(lcr_h_value(0, &Config::default()), 0x70);
    assert_eq!(lcr_h_value(0xff, &Config::default()), 0xf1);
    let c = Config { data_bits: 7, stop_bits: 2, parity: Parity::Even, ..Config::default() };
    assert_eq!(lcr_h_value(0, &c), 0x5e);
    let o = Config { data_bits: 5, parity: Parity::Odd, ..Config::default() };
    assert_eq!(lcr_h_value(0, &o), 0x12);
}

#[test]
fn control_and_interrupt_masks() {
    assert_eq!(cr_value(0, true), 0x301);
    assert_eq!(cr_value(0xffff, false), 0xfcfe);
    assert_eq!(imsc_value(0, true), 0x50);
    assert_eq!(imsc_value(0xff, false), 0xaf);
    assert_eq!(clear_all_interrupts_value(), 0x7ff);
    assert_eq!(rx_interrupts_clear_value(), 0x50);
}

#[test]
fn flags() {
    assert!(tx_fifo_full(0x20));
    assert!(!tx_fifo_full(0x10));
    assert!(rx_fifo_empty(0x10));
    assert!(!rx_fifo_empty(0x20));
    assert!(tx_busy(0x8));
    assert!(!tx_busy(0x7));
    assert!(rx_interrupt_pending(0x40));
    assert!(rx_interrupt_pending(0x10));
    assert!(!rx_interrupt_pending(0x20));
    assert_eq!(rx_data_byte(0x141), 0x41);
}

#[test]
fn reading_a_byte() {
    assert_eq!(read_byte_decision(0x10, false), None);
    assert_eq!(read_byte_decision(0x10, true), Some(true));
    assert_eq!(read_byte_decision(0, false), Some(false));
    assert_eq!(read_byte_decision(0x20, true), Some(false));
}

#[test]
fn uart_instances() {
    let u0: Pl011UartInner<u32> = Pl011UartInner::new(UartId::UART0);
    let u1: Pl011UartInner<u32> = Pl011UartInner::new(UartId::UART1);
    assert_eq!(u0.reset_mask(), 1 << 26);
    assert_eq!(u1.reset_mask(), 1 << 27);
    assert_eq!(u1.id(), UartId::UART1);
    let mut u: Pl011Uart<u32> = Pl011Uart::new(UartId::UART0);
    assert_eq!(u.inner.irq_callback(), None);
    u.inner.set_irq_callback(Some(4));
    assert_eq!(u.inner.irq_callback(), Some(4));
    assert_eq!(u.inner.id(), UartId::UART0);
}
