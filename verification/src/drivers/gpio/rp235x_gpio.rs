use vstd::prelude::*;
use crate::bits::{lemma_flag_constants, lemma_usize_bits};

use super::{funcsel_of, Direction, Function, GpioIrqTrigger, Level, Pin, Pull};
use crate::error::DevError;

verus! {

/// Number of user pins of bank 0.
pub const MAX_PINS: usize = 30;

/// Pad-control register bits.
pub const PAD_SCHMITT: u32 = 0x002;
pub const PAD_PDE: u32 = 0x004;
pub const PAD_PUE: u32 = 0x008;
pub const PAD_IE: u32 = 0x040;
pub const PAD_OD: u32 = 0x080;
pub const PAD_ISO: u32 = 0x100;

/// Pad value that connects (`enable`) or isolates the pad.
pub open spec fn pad_isolation_spec(pad: u32, enable: bool) -> u32 {
    if enable { pad & !0x100u32 } else { pad | 0x100u32 }
}

/// Pad value for a pin handed to a peripheral: input buffer on, output
/// allowed.
pub open spec fn pad_function_spec(pad: u32) -> u32 {
    (pad | 0x40u32) & !0x80u32
}

/// Control value selecting `f` (function select in bits 4..0).
pub open spec fn ctrl_funcsel_spec(ctrl: u32, f: Function) -> u32 {
    (ctrl & !0x1fu32) | (funcsel_of(f) & 0x1fu32)
}

/// Pad value with pull-up (bit 3) and pull-down (bit 2) set for `pull`.
pub open spec fn pad_pull_spec(pad: u32, pull: Pull) -> u32 {
    match pull {
        Pull::Floating => pad & !0xcu32,
        Pull::Up => (pad | 0x8u32) & !0x4u32,
        Pull::Down => (pad & !0x8u32) | 0x4u32,
    }
}

/// Pad value for a direction: inputs disable the output driver and keep
/// the input buffer only when enabled; enabled outputs turn on both.
pub open spec fn pad_direction_spec(pad: u32, direction: Direction, enable: bool) -> u32 {
    match direction {
        Direction::Input => if enable {
            pad | 0x40u32 | 0x80u32
        } else {
            (pad & !0x40u32) | 0x80u32
        },
        Direction::Output => if enable {
            (pad | 0x40u32) & !0x80u32
        } else {
            pad | 0x80u32
        },
    }
}

/// Pad value with the Schmitt trigger (bit 1) on or off.
pub open spec fn pad_schmitt_spec(pad: u32, enable: bool) -> u32 {
    if enable { pad | 0x2u32 } else { pad & !0x2u32 }
}

/// A write to a set/clear register pair of the SIO block.
#[derive(Copy, Clone, Debug, PartialEq, Eq, Structural)]
pub struct SioWrite {
    /// Write to the set register (else to the clear register).
    pub set: bool,
    pub mask: u32,
}

/// The output-enable write for a direction.
pub open spec fn oe_write_spec(pin: usize, direction: Direction, enable: bool) -> SioWrite {
    SioWrite { set: direction == Direction::Output && enable, mask: (1u32 << pin) as u32 }
}

/// The pin's bit in bank-wide registers.
pub fn pin_mask(pin: usize) -> (m: u32)
    requires
        pin < MAX_PINS,
    ensures
        m == 1u32 << pin,
{
    1u32 << (pin as u32)
}

/// Connects or isolates a pad.
pub fn pad_isolation(pad: u32, enable: bool) -> (r: u32)
    ensures
        r == pad_isolation_spec(pad, enable),
{
    if enable {
        pad & !PAD_ISO
    } else {
        pad | PAD_ISO
    }
}

/// Prepares a pad for a peripheral function.
pub fn pad_for_function(pad: u32) -> (r: u32)
    ensures
        r == pad_function_spec(pad),
{
    (pad | PAD_IE) & !PAD_OD
}

/// Selects a function in a pin's control register.
pub fn ctrl_with_function(ctrl: u32, func: Function) -> (r: u32)
    ensures
        r == ctrl_funcsel_spec(ctrl, func),
{
    (ctrl & !0x1f) | (func.bits() & 0x1f)
}

/// Sets a pad's pull resistors.
pub fn pad_with_pull(pad: u32, pull: Pull) -> (r: u32)
    ensures
        r == pad_pull_spec(pad, pull),
{
    match pull {
        Pull::Floating => {
            proof {
                lemma_flag_constants();
            }
            pad & !(PAD_PUE | PAD_PDE)
        },
        Pull::Up => (pad | PAD_PUE) & !PAD_PDE,
        Pull::Down => (pad & !PAD_PUE) | PAD_PDE,
    }
}

proof fn lemma_pad_bits(pad: u32)
    by (bit_vector)
    ensures
        ((pad | 0x40u32 | 0x80u32) / 128) % 2 == 1,
        ((pad | 0x40u32 | 0x80u32) / 64) % 2 == 1,
        (pad | 0x40u32 | 0x80u32) % 64 == pad % 64,
        (pad | 0x40u32 | 0x80u32) / 256 == pad / 256,
        (((pad & !0x40u32) | 0x80u32) / 128) % 2 == 1,
        (((pad & !0x40u32) | 0x80u32) / 64) % 2 == 0,
        ((pad & !0x40u32) | 0x80u32) % 64 == pad % 64,
        ((pad & !0x40u32) | 0x80u32) / 256 == pad / 256,
        (((pad | 0x40u32) & !0x80u32) / 128) % 2 == 0,
        (((pad | 0x40u32) & !0x80u32) / 64) % 2 == 1,
        ((pad | 0x40u32) & !0x80u32) % 64 == pad % 64,
        ((pad | 0x40u32) & !0x80u32) / 256 == pad / 256,
        ((pad | 0x80u32) / 128) % 2 == 1,
        ((pad | 0x80u32) / 64) % 2 == (pad / 64) % 2,
        (pad | 0x80u32) % 64 == pad % 64,
        (pad | 0x80u32) / 256 == pad / 256,
{
}

/// Setting a pin's direction: the pad's output driver is on (output-disable
/// bit 7 clear) exactly for an enabled output, whatever the pad held; the
/// input buffer (bit 6) is on for an enabled input or output, off for a
/// disabled input, and untouched for a disabled output; every other pad bit
/// is kept; and the pin's output enable is set exactly for an enabled
/// output, on the pin's own bit.
pub proof fn lemma_direction_pad(pad: u32, pin: usize, direction: Direction, enable: bool)
    ensures
        ((pad_direction_spec(pad, direction, enable) / 128) % 2 == 0) == (direction == Direction::Output
            && enable),
        enable ==> (pad_direction_spec(pad, direction, enable) / 64) % 2 == 1,
        direction == Direction::Input && !enable ==> (pad_direction_spec(pad, direction, enable) / 64)
            % 2 == 0,
        direction == Direction::Output && !enable ==> (pad_direction_spec(pad, direction, enable) / 64)
            % 2 == (pad / 64) % 2,
        pad_direction_spec(pad, direction, enable) % 64 == pad % 64,
        pad_direction_spec(pad, direction, enable) / 256 == pad / 256,
        oe_write_spec(pin, direction, enable).set == (direction == Direction::Output && enable),
        oe_write_spec(pin, direction, enable).mask == (1u32 << pin) as u32,
{
    lemma_pad_bits(pad);
}

/// Sets a pad for a direction and gives the output-enable write.
pub fn pad_with_direction(pad: u32, pin: usize, direction: Direction, enable: bool) -> (r: (u32, SioWrite))
    requires
        pin < MAX_PINS,
    ensures
        r.0 == pad_direction_spec(pad, direction, enable),
        r.1 == oe_write_spec(pin, direction, enable),
{
    let mask = pin_mask(pin);
    match direction {
        Direction::Input => {
            let p = if enable {
                pad | PAD_IE | PAD_OD
            } else {
                (pad & !PAD_IE) | PAD_OD
            };
            (p, SioWrite { set: false, mask })
        },
        Direction::Output => {
            let p = if enable {
                (pad | PAD_IE) & !PAD_OD
            } else {
                pad | PAD_OD
            };
            (p, SioWrite { set: enable, mask })
        },
    }
}

/// The output write that drives a pin to a level.
pub fn level_write(pin: usize, level: Level) -> (w: SioWrite)
    requires
        pin < MAX_PINS,
    ensures
        w == (SioWrite { set: level == Level::High, mask: (1u32 << pin) as u32 }),
{
    SioWrite { set: level == Level::High, mask: pin_mask(pin) }
}

/// The level of a pin in the input register value.
pub fn level_from_input(gpio_in: u32, pin: usize) -> (l: Level)
    requires
        pin < 32,
    ensures
        l == (if gpio_in & (1u32 << pin) == 0 { Level::Low } else { Level::High }),
{
    if gpio_in & (1u32 << (pin as u32)) == 0 {
        Level::Low
    } else {
        Level::High
    }
}

/// Turns a pad's Schmitt trigger on or off.
pub fn pad_with_schmitt(pad: u32, enable: bool) -> (r: u32)
    ensures
        r == pad_schmitt_spec(pad, enable),
{
    if enable {
        pad | PAD_SCHMITT
    } else {
        pad & !PAD_SCHMITT
    }
}

/// Register layout of a pin interrupt: the bank register, the bits that
/// clear the pin's pending events, and the enable bits for a trigger.
#[derive(Copy, Clone, Debug, PartialEq, Eq, Structural)]
pub struct IrqSetup {
    pub bank: usize,
    pub clear_mask: u32,
    pub enable_mask: u32,
}

/// Event bit of each trigger inside a pin's nibble (level low, level high,
/// edge low, edge high).
pub open spec fn trigger_nibble(t: GpioIrqTrigger) -> u32 {
    match t {
        GpioIrqTrigger::LevelLow => 0x1,
        GpioIrqTrigger::LevelHigh => 0x2,
        GpioIrqTrigger::EdgeLow => 0x4,
        GpioIrqTrigger::EdgeHigh => 0x8,
        GpioIrqTrigger::EdgeBoth => 0xc,
    }
}

/// The registers of the interrupt of `pin` for `trigger`: eight pins per
/// bank register, four event bits per pin.
pub fn irq_setup(pin: usize, trigger: GpioIrqTrigger) -> (s: IrqSetup)
    requires
        pin < MAX_PINS,
    ensures
        s.bank == pin / 8,
        s.clear_mask == (0x0fu32 << (((pin % 8) * 4) as u32)),
        s.enable_mask == (trigger_nibble(trigger) << (((pin % 8) * 4) as u32)),
{
    let bank = pin / 8;
    let shift = ((pin % 8) * 4) as u32;
    let enable_mask = match trigger {
        GpioIrqTrigger::LevelLow => 1u32 << shift,
        GpioIrqTrigger::LevelHigh => 1u32 << (shift + 1),
        GpioIrqTrigger::EdgeLow => 1u32 << (shift + 2),
        GpioIrqTrigger::EdgeHigh => 1u32 << (shift + 3),
        GpioIrqTrigger::EdgeBoth => (1u32 << (shift + 2)) | (1u32 << (shift + 3)),
    };
    assert(shift <= 28 ==> (1u32 << shift) == (1u32 << shift)
        && (1u32 << (shift + 1)) == (2u32 << shift) && (1u32 << (shift + 2)) == (4u32 << shift)
        && (1u32 << (shift + 3)) == (8u32 << shift) && ((1u32 << (shift + 2)) | (1u32 << (shift
        + 3))) == (0xcu32 << shift)) by (bit_vector);
    IrqSetup { bank, clear_mask: 0x0f << shift, enable_mask }
}

/// The event nibble of pin `i` of a bank status word.
pub open spec fn irq_nibble(status: u32, i: int) -> u32 {
    (status >> ((4 * i) as u32)) & 0xfu32
}

/// The pins of bank `bank` with pending events among its first `n`, with
/// their events, lowest pin first.
pub open spec fn irq_pins_spec(bank: usize, status: u32, n: int) -> Seq<(usize, u32)>
    decreases n,
{
    if n <= 0 {
        Seq::empty()
    } else if irq_nibble(status, n - 1) != 0 {
        irq_pins_spec(bank, status, n - 1).push(((bank * 8 + n - 1) as usize, irq_nibble(status, n - 1)))
    } else {
        irq_pins_spec(bank, status, n - 1)
    }
}

/// Takes apart an interrupt status word of a bank into the pins with
/// pending events and their event bits.
pub fn decode_irq_bank(bank: usize, status: u32) -> (pins: Vec<(usize, u32)>)
    requires
        bank < 4,
    ensures
        pins@ == irq_pins_spec(bank, status, 8),
{
    let mut pins: Vec<(usize, u32)> = Vec::new();
    let mut i: usize = 0;
    while i < 8
        invariant
            i <= 8,
            bank < 4,
            pins@ == irq_pins_spec(bank, status, i as int),
        decreases 8 - i,
    {
        let shift = (i * 4) as u32;
        let bits = (status >> shift) & 0x0f;
        if bits != 0 {
            pins.push((bank * 8 + i, bits));
        }
        i = i + 1;
    }
    pins
}

/// The event data passed upward for a pin interrupt: the pin in the low
/// byte, the level (1 high) in the next.
pub fn irq_event_data(pin: usize, level: Level) -> (d: usize)
    requires
        pin < 256,
    ensures
        d == pin + 256 * (if level == Level::High { 1int } else { 0int }),
{
    let lv: usize = match level {
        Level::Low => 0,
        Level::High => 1,
    };
    let d = pin | (lv << 8usize);
    assert(d == pin + 256 * lv) by (bit_vector)
        requires
            pin < 256,
            lv <= 1,
            d == pin | (lv << 8usize),
    ;
    d
}

/// The pin and level carried in pin-interrupt event data.
pub fn decode_irq_event_data(data: usize) -> (r: (usize, usize))
    ensures
        r.0 == data % 256,
        r.1 == (data / 256) % 256,
{
    proof {
        lemma_usize_bits(data);
    }
    let pin = data & 0xff;
    let level = (data >> 8usize) & 0xff;
    (pin, level)
}

/// Reading back the pin and level of event data gives them back.
pub proof fn lemma_irq_event_roundtrip(pin: usize, high: bool)
    requires
        pin < 256,
    ensures
        ({
            let d = pin + 256 * (if high { 1int } else { 0int });
            d % 256 == pin && (d / 256) % 256 == (if high { 1int } else { 0int })
        }),
{
}

/// The pin named by a device read request (`[pin, _]`); shorter requests
/// are refused.
pub fn gpio_read_request(data: &[u8]) -> (r: Result<Pin, DevError>)
    ensures
        data@.len() < 2 ==> r == Err::<Pin, DevError>(DevError::InvalidArg),
        data@.len() >= 2 ==> r == Ok::<Pin, DevError>(Pin(data@[0] as usize)),
{
    if data.len() < 2 {
        return Err(DevError::InvalidArg);
    }
    Ok(Pin(data[0] as usize))
}

/// The byte reporting a level: 1 for high, 0 for low.
pub fn level_byte(level: Level) -> (b: u8)
    ensures
        b == (if level == Level::High { 1u8 } else { 0u8 }),
{
    match level {
        Level::Low => 0,
        Level::High => 1,
    }
}

/// The pin and level of a device write request (`[pin, level]`, any
/// non-zero level meaning high); shorter requests are refused.
pub fn gpio_write_request(data: &[u8]) -> (r: Result<(Pin, Level), DevError>)
    ensures
        data@.len() < 2 ==> r == Err::<(Pin, Level), DevError>(DevError::InvalidArg),
        data@.len() >= 2 ==> r == Ok::<(Pin, Level), DevError>(
            (Pin(data@[0] as usize), if data@[1] == 0 { Level::Low } else { Level::High }),
        ),
{
    if data.len() < 2 {
        return Err(DevError::InvalidArg);
    }
    let level = if data[1] == 0 {
        Level::Low
    } else {
        Level::High
    };
    Ok((Pin(data[0] as usize), level))
}

/// The GPIO bank driver's software state: a handler per pin and a callback
/// to the layer above.
pub struct Rp235xGpio<H, C> {
    irq_handlers: Vec<Option<H>>,
    irq_callback: Option<C>,
}

impl<H: Copy, C: Copy> Rp235xGpio<H, C> {
    /// The name the driver registers under.
    pub fn compatible(&self) -> (s: &'static str)
        ensures
            s@ == "RP235x GPIO"@,
    {
        "RP235x GPIO"
    }

    pub closed spec fn handlers(&self) -> Seq<Option<H>> {
        self.irq_handlers@
    }

    pub closed spec fn callback(&self) -> Option<C> {
        self.irq_callback
    }

    /// A driver with no handlers and no callback.
    pub fn new() -> (g: Self)
        ensures
            g.handlers() == Seq::new(MAX_PINS as nat, |i: int| None::<H>),
            g.callback() is None,
    {
        let mut v: Vec<Option<H>> = Vec::new();
        let mut i: usize = 0;
        while i < MAX_PINS
            invariant
                i <= MAX_PINS,
                v@ == Seq::new(i as nat, |k: int| None::<H>),
            decreases MAX_PINS - i,
        {
            v.push(None);
            i = i + 1;
            assert(v@ =~= Seq::new(i as nat, |k: int| None::<H>));
        }
        Rp235xGpio { irq_handlers: v, irq_callback: None }
    }

    /// Installs (or with `None` removes) the interrupt handler of a pin.
    pub fn register_irq_handler(&mut self, pin: &Pin, handler: Option<H>)
        requires
            old(self).handlers().len() == MAX_PINS,
            pin.0 < MAX_PINS,
        ensures
            final(self).handlers() == old(self).handlers().update(pin.0 as int, handler),
            final(self).callback() == old(self).callback(),
    {
        self.irq_handlers.set(pin.0, handler);
    }

    /// The handler of a pin.
    pub fn irq_handler(&self, pin: &Pin) -> (h: Option<H>)
        requires
            self.handlers().len() == MAX_PINS,
            pin.0 < MAX_PINS,
        ensures
            h == self.handlers()[pin.0 as int],
    {
        self.irq_handlers[pin.0]
    }

    /// Sets the callback to the layer above.
    pub fn set_irq_callback(&mut self, cb: Option<C>)
        ensures
            final(self).callback() == cb,
            final(self).handlers() == old(self).handlers(),
    {
        self.irq_callback = cb;
    }

    /// The callback to the layer above.
    pub fn irq_callback(&self) -> (c: Option<C>)
        ensures
            c == self.callback(),
    {
        self.irq_callback
    }
}

/// Selecting a pull and reading the pull bits back gives the pull; the
/// other bits of the pad are untouched.
pub proof fn lemma_pull_readback(pad: u32, pull: Pull)
    ensures
        pad_pull_spec(pad, pull) & !0xcu32 == pad & !0xcu32,
        (pad_pull_spec(pad, pull) & 0xcu32) == (match pull {
            Pull::Floating => 0u32,
            Pull::Up => 0x8u32,
            Pull::Down => 0x4u32,
        }),
{
    assert(((pad & !0xcu32) & !0xcu32) == pad & !0xcu32 && ((pad & !0xcu32) & 0xcu32) == 0u32)
        by (bit_vector);
    assert((((pad | 0x8u32) & !0x4u32) & !0xcu32) == pad & !0xcu32 && (((pad | 0x8u32) & !0x4u32)
        & 0xcu32) == 0x8u32) by (bit_vector);
    assert((((pad & !0x8u32) | 0x4u32) & !0xcu32) == pad & !0xcu32 && (((pad & !0x8u32) | 0x4u32)
        & 0xcu32) == 0x4u32) by (bit_vector);
}

/// Selecting a function and reading the function-select field back gives
/// the function; the rest of the control register is untouched.
pub proof fn lemma_funcsel_readback(ctrl: u32, f: Function)
    ensures
        ctrl_funcsel_spec(ctrl, f) & 0x1fu32 == funcsel_of(f),
        ctrl_funcsel_spec(ctrl, f) & !0x1fu32 == ctrl & !0x1fu32,
{
    let v = funcsel_of(f);
    assert(v <= 0x1f);
    assert(v <= 0x1f ==> (((ctrl & !0x1fu32) | (v & 0x1fu32)) & 0x1fu32) == v && (((ctrl
        & !0x1fu32) | (v & 0x1fu32)) & !0x1fu32) == ctrl & !0x1fu32) by (bit_vector);
}

} // verus!
