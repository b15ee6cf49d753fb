use vstd::prelude::*;
use crate::error::DevError;
use crate::bits::lemma_u32_bits;

use super::{SpiConfig, SpiMode};

verus! {

#[derive(Copy, Clone, Debug, PartialEq, Eq, Structural)]
pub enum SpiId {
    SPI0,
    SPI1,
}

/// The clock polarity and phase of a mode.
pub open spec fn mode_bits(m: SpiMode) -> (bool, bool) {
    match m {
        SpiMode::Mode0 => (false, false),
        SpiMode::Mode1 => (false, true),
        SpiMode::Mode2 => (true, false),
        SpiMode::Mode3 => (true, true),
    }
}

/// A prescaler and serial clock rate divide the clock at least `target`
/// times.
pub open spec fn div_ok(cps: int, scr: int, target: int) -> bool {
    cps * (scr + 1) >= target
}

/// The register values a configuration programs.
#[derive(Copy, Clone, Debug, PartialEq, Eq, Structural)]
pub struct SpiRegs {
    /// Control register 0: data size, frame format, polarity, phase, rate.
    pub cr0: u32,
    /// Clock prescaler.
    pub cpsr: u32,
    /// Control register 1: master mode, enabled.
    pub cr1: u32,
}

/// The first clock divisor pair, scanning even prescalers 2 to 254 and for
/// each the rates 0 to 255, that divides the clock at least `target` times;
/// `(2, 0)` when none does.
pub fn clock_divisors(target: u32) -> (r: (u8, u8))
    ensures
        target <= 254 * 256 ==> {
            &&& r.0 % 2 == 0
            &&& 2 <= r.0 <= 254
            &&& div_ok(r.0 as int, r.1 as int, target as int)
            &&& forall|c: int| 2 <= c < r.0 && c % 2 == 0 ==> !div_ok(c, 255, target as int)
            &&& forall|s: int| 0 <= s < r.1 ==> !div_ok(r.0 as int, s, target as int)
        },
        target > 254 * 256 ==> r == (2u8, 0u8),
{
    let mut cps: u32 = 2;
    while cps <= 254
        invariant
            2 <= cps <= 256,
            cps % 2 == 0,
            forall|c: int| 2 <= c < cps && c % 2 == 0 ==> !div_ok(c, 255, target as int),
        decreases 256 - cps,
    {
        let mut s: u32 = 0;
        while s <= 255
            invariant
                2 <= cps <= 254,
                cps % 2 == 0,
                s <= 256,
                forall|c: int| 2 <= c < cps && c % 2 == 0 ==> !div_ok(c, 255, target as int),
                forall|k: int| 0 <= k < s ==> !div_ok(cps as int, k, target as int),
            decreases 256 - s,
        {
            assert(cps * (s + 1) <= 254 * 256) by (nonlinear_arith)
                requires
                    cps <= 254,
                    s + 1 <= 256,
            ;
            let div = cps * (s + 1);
            if div >= target {
                return (cps as u8, s as u8);
            }
            s = s + 1;
        }
        assert(!div_ok(cps as int, 255, target as int));
        cps = cps + 2;
    }
    assert forall|c: int| 2 <= c <= 254 && c % 2 == 0 implies !div_ok(c, 255, target as int) by {}
    if target <= 254 * 256 {
        assert(div_ok(254, 255, target as int));
    }
    (2, 0)
}

/// The register values programmed for `config`: in control register 0 the
/// data size less one, Motorola frame format, the mode's polarity (bit 6)
/// and phase (bit 7) and the serial clock rate (bits 8-15); the prescaler;
/// control register 1 with master mode and the controller enabled. The
/// divisor pair is the first, scanning even prescalers from 2 and for each
/// the rates from 0, that divides the clock at least `clk_peri / baudrate`
/// times, or `(2, 0)` when none does.
pub open spec fn spi_regs_ok(config: SpiConfig, r: SpiRegs) -> bool {
    &&& ({
        let (cpol, cpha) = mode_bits(config.mode);
        &&& r.cr0 == ((config.bits_per_word - 1) % 16) + (if cpol { 64int } else { 0 }) + (if cpha {
            128int
        } else {
            0
        }) + r.cr0 / 256 * 256
        &&& r.cr0 / 256 < 256
        &&& r.cr1 == 2
    })
    &&& ({
        let target = config.clk_peri / config.baudrate;
        &&& target <= 254 * 256 ==> {
            &&& r.cpsr % 2 == 0
            &&& 2 <= r.cpsr <= 254
            &&& div_ok(r.cpsr as int, (r.cr0 / 256) as int, target as int)
            &&& forall|c: int| 2 <= c < r.cpsr && c % 2 == 0 ==> !div_ok(c, 255, target as int)
            &&& forall|s: int| 0 <= s < r.cr0 / 256 ==> !div_ok(r.cpsr as int, s, target as int)
        }
        &&& target > 254 * 256 ==> r.cpsr == 2 && r.cr0 / 256 == 0
    })
}

/// The controller registers a configuration touches.
#[derive(Copy, Clone, Debug, PartialEq, Eq, Structural)]
pub enum SpiReg {
    Cr0,
    Cr1,
    Cpsr,
}

/// One register access of a configuration.
#[derive(Copy, Clone, Debug, PartialEq, Eq, Structural)]
pub enum SpiStep {
    /// Clear the bits of `mask` in `reg`, keeping the others.
    ClearBits { reg: SpiReg, mask: u32 },
    /// Write `value` to `reg`.
    Write { reg: SpiReg, value: u32 },
}

/// The order in which `r` is programmed: the controller disabled first
/// (enable bit 1 of control register 1 cleared), the frame format with a
/// zero rate, the prescaler, the frame format with the rate, and last
/// master mode with the controller enabled.
pub open spec fn spi_steps_spec(r: SpiRegs) -> Seq<SpiStep> {
    seq![
        SpiStep::ClearBits { reg: SpiReg::Cr1, mask: 2 },
        SpiStep::Write { reg: SpiReg::Cr0, value: (r.cr0 % 256) as u32 },
        SpiStep::Write { reg: SpiReg::Cpsr, value: r.cpsr },
        SpiStep::Write { reg: SpiReg::Cr0, value: r.cr0 },
        SpiStep::Write { reg: SpiReg::Cr1, value: r.cr1 },
    ]
}

/// The register accesses that program `r`, in order.
pub fn spi_config_steps(r: SpiRegs) -> (v: Vec<SpiStep>)
    ensures
        v@ == spi_steps_spec(r),
{
    let v = vec![
        SpiStep::ClearBits { reg: SpiReg::Cr1, mask: 2 },
        SpiStep::Write { reg: SpiReg::Cr0, value: r.cr0 % 256 },
        SpiStep::Write { reg: SpiReg::Cpsr, value: r.cpsr },
        SpiStep::Write { reg: SpiReg::Cr0, value: r.cr0 },
        SpiStep::Write { reg: SpiReg::Cr1, value: r.cr1 },
    ];
    assert(v@ =~= spi_steps_spec(r));
    v
}

/// Programs a configuration: frame format and mode in control register 0
/// with the serial clock rate, the prescaler, then master mode with the
/// controller enabled.
pub fn spi_config_regs(config: &SpiConfig) -> (r: SpiRegs)
    requires
        config.baudrate > 0,
        config.bits_per_word >= 1,
    ensures
        spi_regs_ok(*config, r),
{
    let (cpol, cpha) = match config.mode {
        SpiMode::Mode0 => (false, false),
        SpiMode::Mode1 => (false, true),
        SpiMode::Mode2 => (true, false),
        SpiMode::Mode3 => (true, true),
    };
    let b = (config.bits_per_word - 1) as u32;
    proof {
        lemma_u32_bits(b);
    }
    let dss = b & 0xf;
    let target = config.clk_peri / config.baudrate;
    let (cpsdvsr, scr) = clock_divisors(target);
    let cr0 = dss + (if cpol {
        64
    } else {
        0
    }) + (if cpha {
        128
    } else {
        0
    }) + (scr as u32) * 256;
    SpiRegs { cr0, cpsr: cpsdvsr as u32, cr1: 2 }
}

/// The bit of a controller in the reset register (18 and 19), and the bit
/// the driver waits on in the reset-done register, which is the second
/// controller's for both.
pub fn spi_reset_bits(id: SpiId) -> (r: (u32, u32))
    ensures
        id == SpiId::SPI0 ==> r == (1u32 << 18u32, 1u32 << 19u32),
        id == SpiId::SPI1 ==> r == (1u32 << 19u32, 1u32 << 19u32),
{
    match id {
        SpiId::SPI0 => (1u32 << 18u32, 1u32 << 19u32),
        SpiId::SPI1 => (1u32 << 19u32, 1u32 << 19u32),
    }
}

/// Status register: transmit FIFO not full (bit 1).
pub fn tx_not_full(sr: u32) -> (r: bool)
    ensures
        r == ((sr / 2) % 2 == 1),
{
    proof {
        lemma_u32_bits(sr);
    }
    let b = sr & 0x2;
    b != 0
}

/// Status register: receive FIFO not empty (bit 2).
pub fn rx_not_empty(sr: u32) -> (r: bool)
    ensures
        r == ((sr / 4) % 2 == 1),
{
    proof {
        lemma_u32_bits(sr);
    }
    let b = sr & 0x4;
    b != 0
}

/// Status register: busy (bit 4).
pub fn busy(sr: u32) -> (r: bool)
    ensures
        r == ((sr / 16) % 2 == 1),
{
    proof {
        lemma_u32_bits(sr);
    }
    let b = sr & 0x10;
    b != 0
}

/// The number of bytes a full-duplex transfer exchanges: the shorter of
/// the two buffers.
pub fn transfer_len(tx_len: usize, rx_len: usize) -> (n: usize)
    ensures
        n == (if tx_len < rx_len { tx_len } else { rx_len }),
{
    if tx_len < rx_len {
        tx_len
    } else {
        rx_len
    }
}

/// The PL022 controller driver's state.
pub struct Pl022SpiInner {
    id: SpiId,
}

/// A PL022 SPI controller.
pub struct Pl022Spi {
    pub inner: Pl022SpiInner,
}

impl Pl022SpiInner {
    pub closed spec fn spi_id(&self) -> SpiId {
        self.id
    }

    /// Create an instance
    pub fn new(id: SpiId) -> (s: Self)
        ensures
            s.spi_id() == id,
    {
        Pl022SpiInner { id }
    }

    pub fn id(&self) -> (id: SpiId)
        ensures
            id == self.spi_id(),
    {
        self.id
    }

    /// A configuration: the register values and the order in which they
    /// are programmed.
    pub fn config(&self, config: &SpiConfig) -> (r: (SpiRegs, Vec<SpiStep>))
        requires
            config.baudrate > 0,
            config.bits_per_word >= 1,
        ensures
            spi_regs_ok(*config, r.0),
            r.1@ == spi_steps_spec(r.0),
    {
        let regs = spi_config_regs(config);
        let steps = spi_config_steps(regs);
        (regs, steps)
    }
}

impl Pl022Spi {
    /// The name the driver registers under.
    pub fn compatible(&self) -> (s: &'static str)
        ensures
            s@ == "RP235x PL022 SPI"@,
    {
        "RP235x PL022 SPI"
    }

    /// Plain device reads are refused.
    pub fn device_read(&self, _data: &[u8]) -> (r: Result<usize, DevError>)
        ensures
            r == Err::<usize, DevError>(DevError::Unsupported),
    {
        Err(DevError::Unsupported)
    }

    /// Create an instance
    pub fn new(id: SpiId) -> (s: Self)
        ensures
            s.inner.spi_id() == id,
    {
        Pl022Spi { inner: Pl022SpiInner::new(id) }
    }
}

} // verus!
