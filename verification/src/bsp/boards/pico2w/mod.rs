//! The Raspberry Pi Pico 2 W and the boards it is mounted on: what each
//! pin is set up as.
use vstd::prelude::*;

use crate::drivers::gpio::{Direction, Function, Level, Pull};
use crate::error::DevError;

pub mod bd52pi;
pub mod picocalc;
pub mod ws_lcd114;

verus! {

/// The set-up of one pin: its function, pull, direction when it is driven
/// by software, and the level it starts at.
#[derive(Clone, Copy, Debug, PartialEq, Eq, Structural)]
pub struct PinSetup {
    pub pin: usize,
    pub function: Function,
    pub pull: Pull,
    pub direction: Option<Direction>,
    pub level: Option<Level>,
}

/// A pin given to a peripheral.
pub open spec fn periph(pin: usize, function: Function, pull: Pull) -> PinSetup {
    PinSetup { pin, function, pull, direction: None, level: None }
}

/// A software output, with its starting level if it has one.
pub open spec fn output(pin: usize, level: Option<Level>) -> PinSetup {
    PinSetup {
        pin,
        function: Function::SIO,
        pull: Pull::Floating,
        direction: Some(Direction::Output),
        level,
    }
}

/// The CYW43439 radio's pins: power, data, chip select, clock.
pub const CYW43_PWR_PIN: usize = 23;
pub const CYW43_DIO_PIN: usize = 24;
pub const CYW43_CS_PIN: usize = 25;
pub const CYW43_CLK_PIN: usize = 29;

/// A pin of the radio.
pub open spec fn radio_pin(p: usize) -> bool {
    p == CYW43_PWR_PIN || p == CYW43_DIO_PIN || p == CYW43_CS_PIN || p == CYW43_CLK_PIN
}

/// A pin plan sets each pin up at most once, and leaves the radio's pins
/// alone.
pub open spec fn plan_sound(plan: Seq<PinSetup>) -> bool {
    &&& forall|i: int, j: int|
        0 <= i < j < plan.len() ==> (#[trigger] plan[i]).pin != (#[trigger] plan[j]).pin
    &&& forall|i: int| 0 <= i < plan.len() ==> !radio_pin(#[trigger] plan[i].pin)
}

/// The board.
pub struct Pico2wBoard;

impl Pico2wBoard {
    /// The board's name.
    pub fn board_name(&self) -> (n: &'static str)
        ensures
            n@ == "Raspberry Pico 2W"@,
    {
        "Raspberry Pico 2W"
    }
}

/// Board bring-up runs once: a second attempt is refused.
pub fn board_init_check(done: bool) -> (r: Result<(), DevError>)
    ensures
        done ==> r == Err::<(), DevError>(DevError::DevAlreadyInit),
        !done ==> r == Ok::<(), DevError>(()),
{
    if done {
        Err(DevError::DevAlreadyInit)
    } else {
        Ok(())
    }
}

/// The drivers a carrier board registers.
#[derive(Clone, Copy, Debug, PartialEq, Eq, Structural)]
pub enum DeviceKind {
    Gpio,
    Uart,
    Spi,
    I2c,
    Lcd,
    Keyboard,
}

} // verus!
