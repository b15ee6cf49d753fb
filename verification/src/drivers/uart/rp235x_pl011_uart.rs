use vstd::prelude::*;
use crate::error::DevError;
use crate::bits::lemma_u32_bits;

use super::{Config, Parity};

verus! {

#[derive(Copy, Clone, Debug, PartialEq, Eq, Structural)]
pub enum UartId {
    UART0,
    UART1,
}

/// Line-control fields touched by configuration: break (bit 0) and stick
/// parity (bit 7) are kept, the others replaced.
pub const LCR_H_KEEP: u32 = 0x81;

/// The line-control register after configuration: FIFOs on (bit 4), word
/// length `data_bits - 5` (bits 6..5), two stop bits (bit 3) when asked,
/// parity enable (bit 1) and even parity (bit 2) from the parity setting.
pub open spec fn lcr_h_spec(old: u32, c: Config) -> u32 {
    ((old & !0x7eu32) | 0x10u32 | (((c.data_bits - 5) as u32) << 5u32)
        | (if c.stop_bits == 2 { 0x8u32 } else { 0u32 })
        | (match c.parity {
            Parity::Off => 0u32,
            Parity::Even => 0x6u32,
            Parity::Odd => 0x2u32,
        })) as u32
}

/// The fields of a line-control value built from a word-length code `w`,
/// a stop-bit field `s` and a parity field `p`.
proof fn lemma_lcr_fields(old: u32, w: u32, s: u32, p: u32)
    by (bit_vector)
    requires
        w < 4,
        s == 0 || s == 8,
        p == 0 || p == 2 || p == 6,
    ensures
        ((((old & !0x7eu32) | 0x10u32 | (w << 5u32) | s | p) / 8) % 2 == 1) == (s == 8),
        (((old & !0x7eu32) | 0x10u32 | (w << 5u32) | s | p) / 16) % 2 == 1,
        (((old & !0x7eu32) | 0x10u32 | (w << 5u32) | s | p) / 32) % 4 == w,
        ((((old & !0x7eu32) | 0x10u32 | (w << 5u32) | s | p) / 2) % 2 == 1) == (p != 0),
        ((((old & !0x7eu32) | 0x10u32 | (w << 5u32) | s | p) / 4) % 2 == 1) == (p == 6),
        ((old & !0x7eu32) | 0x10u32 | (w << 5u32) | s | p) % 2 == old % 2,
        ((old & !0x7eu32) | 0x10u32 | (w << 5u32) | s | p) / 128 == old / 128,
{
}

/// What the line-control register says after configuration, field by field,
/// whatever it held before: two stop bits (bit 3) exactly when two are
/// asked, whatever the parity; FIFOs on (bit 4); the word length less five
/// in bits 6..5; parity enabled (bit 1) exactly when parity is on, and even
/// (bit 2) exactly when it is even; break (bit 0) and the bits from 7 up
/// unchanged.
pub proof fn lemma_line_control_fields(old: u32, c: Config)
    requires
        5 <= c.data_bits <= 8,
    ensures
        ((lcr_h_spec(old, c) / 8) % 2 == 1) == (c.stop_bits == 2),
        (lcr_h_spec(old, c) / 16) % 2 == 1,
        (lcr_h_spec(old, c) / 32) % 4 == c.data_bits - 5,
        ((lcr_h_spec(old, c) / 2) % 2 == 1) == (c.parity != Parity::Off),
        ((lcr_h_spec(old, c) / 4) % 2 == 1) == (c.parity == Parity::Even),
        lcr_h_spec(old, c) % 2 == old % 2,
        lcr_h_spec(old, c) / 128 == old / 128,
{
    let w = (c.data_bits - 5) as u32;
    let s: u32 = if c.stop_bits == 2 { 8 } else { 0 };
    let p: u32 = match c.parity {
        Parity::Off => 0,
        Parity::Even => 6,
        Parity::Odd => 2,
    };
    lemma_lcr_fields(old, w, s, p);
}

/// The control register enabling (or disabling) the UART with its
/// transmitter (bit 8) and receiver (bit 9).
pub open spec fn cr_spec(old: u32, enable: bool) -> u32 {
    if enable { old | 0x301u32 } else { old & !0x301u32 }
}

/// The interrupt mask with the receive (bit 4) and receive-timeout (bit 6)
/// interrupts on or off.
pub open spec fn imsc_spec(old: u32, enable: bool) -> u32 {
    if enable { old | 0x50u32 } else { old & !0x50u32 }
}

/// The PL011 UART driver's software state.
pub struct Pl011UartInner<C> {
    id: UartId,
    irq_callback: Option<C>,
}

/// A PL011 UART.
pub struct Pl011Uart<C> {
    pub inner: Pl011UartInner<C>,
}

/// Baud-rate divisors for a UART clock: the integer part and the 6-bit
/// fraction of clock / (16 * baud), rounded to the nearest 1/64.
pub fn baud_divisors(uart_clock_hz: u32, baudrate: u32) -> (r: (u32, u32))
    requires
        baudrate > 0,
        4 * uart_clock_hz + baudrate / 2 <= u32::MAX,
    ensures
        r.0 == ((4 * uart_clock_hz + baudrate / 2) / baudrate as int) / 64,
        r.1 == ((4 * uart_clock_hz + baudrate / 2) / baudrate as int) % 64,
        r.1 < 64,
        r.0 * 64 + r.1 == (4 * uart_clock_hz + baudrate / 2) / baudrate as int,
{
    let baud_x64 = ((4 * uart_clock_hz) + (baudrate / 2)) / baudrate;
    let ibrd = baud_x64 / 64;
    let fbrd = baud_x64 % 64;
    (ibrd, fbrd)
}

/// Configures the line-control register value; word lengths outside 5 to 8
/// bits are not supported.
pub fn lcr_h_value(old: u32, config: &Config) -> (r: u32)
    requires
        5 <= config.data_bits <= 8,
    ensures
        r == lcr_h_spec(old, *config),
{
    let wlen = (config.data_bits - 5) as u32;
    let stp2: u32 = if config.stop_bits == 2 {
        0x8
    } else {
        0
    };
    let par: u32 = match config.parity {
        Parity::Off => 0,
        Parity::Even => 0x6,
        Parity::Odd => 0x2,
    };
    (old & !0x7e) | 0x10 | (wlen << 5u32) | stp2 | par
}

/// The control register value that enables or disables the UART.
pub fn cr_value(old: u32, enable: bool) -> (r: u32)
    ensures
        r == cr_spec(old, enable),
{
    if enable {
        old | 0x301
    } else {
        old & !0x301
    }
}

/// The interrupt-mask value with the receive interrupts on or off.
pub fn imsc_value(old: u32, enable: bool) -> (r: u32)
    ensures
        r == imsc_spec(old, enable),
{
    if enable {
        old | 0x50
    } else {
        old & !0x50
    }
}

/// The interrupt-clear value that clears every interrupt.
pub fn clear_all_interrupts_value() -> (r: u32)
    ensures
        r == 0x07ff,
{
    0x07ff
}

/// The interrupt-clear value for the receive and receive-timeout
/// interrupts.
pub fn rx_interrupts_clear_value() -> (r: u32)
    ensures
        r == 0x50,
{
    0x50
}

/// Flag register: transmit FIFO full (bit 5).
pub fn tx_fifo_full(fr: u32) -> (r: bool)
    ensures
        r == ((fr / 32) % 2 == 1),
{
    proof {
        lemma_u32_bits(fr);
    }
    let b = fr & 0x20;
    b != 0
}

/// Flag register: receive FIFO empty (bit 4).
pub fn rx_fifo_empty(fr: u32) -> (r: bool)
    ensures
        r == ((fr / 16) % 2 == 1),
{
    proof {
        lemma_u32_bits(fr);
    }
    let b = fr & 0x10;
    b != 0
}

/// Flag register: transmitter busy (bit 3).
pub fn tx_busy(fr: u32) -> (r: bool)
    ensures
        r == ((fr / 8) % 2 == 1),
{
    proof {
        lemma_u32_bits(fr);
    }
    let b = fr & 0x8;
    b != 0
}

/// Masked interrupt status: a receive (bit 4) or receive-timeout (bit 6)
/// interrupt is pending.
pub fn rx_interrupt_pending(mis: u32) -> (r: bool)
    ensures
        r == ((mis / 16) % 2 == 1 || (mis / 64) % 2 == 1),
{
    let a = mis & 0x10;
    let b = mis & 0x40;
    proof {
        lemma_u32_bits(mis);
    }
    a != 0 || b != 0
}

/// A byte read from the data register (the low eight bits).
pub fn rx_data_byte(dr: u32) -> (b: u8)
    ensures
        b == dr % 256,
{
    (dr % 256) as u8
}

/// The outcome of a read attempt: `None` when the FIFO is empty and the read
/// must not block, otherwise whether to wait first.
pub fn read_byte_decision(fr: u32, blocking: bool) -> (r: Option<bool>)
    ensures
        (fr / 16) % 2 == 1 && !blocking ==> r is None,
        (fr / 16) % 2 == 1 && blocking ==> r == Some(true),
        (fr / 16) % 2 == 0 ==> r == Some(false),
{
    if rx_fifo_empty(fr) {
        if !blocking {
            return None;
        }
        return Some(true);
    }
    Some(false)
}

impl<C: Copy> Pl011UartInner<C> {
    pub closed spec fn uart_id(&self) -> UartId {
        self.id
    }

    pub closed spec fn callback(&self) -> Option<C> {
        self.irq_callback
    }

    /// Create an instance
    pub fn new(id: UartId) -> (u: Self)
        ensures
            u.uart_id() == id,
            u.callback() is None,
    {
        Pl011UartInner { id, irq_callback: None }
    }

    pub fn id(&self) -> (id: UartId)
        ensures
            id == self.uart_id(),
    {
        self.id
    }

    /// The bit of this UART in the reset and reset-done registers (26 and 27).
    pub fn reset_mask(&self) -> (m: u32)
        ensures
            self.uart_id() == UartId::UART0 ==> m == 1u32 << 26u32,
            self.uart_id() == UartId::UART1 ==> m == 1u32 << 27u32,
    {
        match self.id {
            UartId::UART0 => 1u32 << 26u32,
            UartId::UART1 => 1u32 << 27u32,
        }
    }

    /// The register values of a configuration: baud divisors, line control
    /// and interrupt enable, applied with the UART disabled and all
    /// interrupts cleared.
    pub fn config(&self, config: &Config) -> (r: (u32, u32))
        requires
            config.baudrate > 0,
            4 * config.clock_hz + config.baudrate / 2 <= u32::MAX,
            5 <= config.data_bits <= 8,
        ensures
            r.0 * 64 + r.1 == (4 * config.clock_hz + config.baudrate / 2) / config.baudrate as int,
            r.1 < 64,
    {
        baud_divisors(config.clock_hz, config.baudrate)
    }

    /// Sets the callback to the layer above.
    pub fn set_irq_callback(&mut self, cb: Option<C>)
        ensures
            final(self).callback() == cb,
            final(self).uart_id() == old(self).uart_id(),
    {
        self.irq_callback = cb;
    }

    /// The callback to the layer above.
    pub fn irq_callback(&self) -> (c: Option<C>)
        ensures
            c == self.callback(),
    {
        self.irq_callback
    }
}

impl<C: Copy> Pl011Uart<C> {
    /// The name the driver registers under.
    pub fn compatible(&self) -> (s: &'static str)
        ensures
            s@ == "RP235x PL011 UART"@,
    {
        "RP235x PL011 UART"
    }

    /// Plain device reads are refused.
    pub fn device_read(&self, _data: &[u8]) -> (r: Result<usize, DevError>)
        ensures
            r == Err::<usize, DevError>(DevError::Unsupported),
    {
        Err(DevError::Unsupported)
    }

    /// Create an instance
    pub fn new(id: UartId) -> (u: Self)
        ensures
            u.inner.uart_id() == id,
            u.inner.callback() is None,
    {
        Pl011Uart { inner: Pl011UartInner::new(id) }
    }
}

} // verus!
