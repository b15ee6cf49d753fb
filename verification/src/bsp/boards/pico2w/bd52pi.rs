//! Pin plan of the bd52pi board.
use vstd::prelude::*;

use super::{output, periph, plan_sound, DeviceKind, PinSetup};
use crate::drivers::gpio::{Direction, Function, Level, Pull};

verus! {

/// The 52Pi board: UART0 on pins 0 and 1, SPI0 on 2 and 3, I2C0 on 8 and 9
/// (pulled up), the LCD's data/command, chip select and reset on 6, 5 and
/// 7, the beeper on 13 (off), two LEDs on 16 and 17 and the RGB LED on 12
/// (all high).
pub open spec fn pin_plan_spec() -> Seq<PinSetup> {
    seq![
        periph(0, Function::UART, Pull::Floating),
        periph(1, Function::UART, Pull::Up),
        periph(2, Function::SPI, Pull::Floating),
        periph(3, Function::SPI, Pull::Floating),
        periph(8, Function::I2C, Pull::Up),
        periph(9, Function::I2C, Pull::Up),
        output(6, None),
        output(5, None),
        output(7, None),
        output(13, Some(Level::Low)),
        output(16, Some(Level::High)),
        output(17, Some(Level::High)),
        output(12, Some(Level::High)),
    ]
}

/// The pins of the board, in the order they are set up.
pub fn pin_plan() -> (v: Vec<PinSetup>)
    ensures
        v@ == pin_plan_spec(),
        plan_sound(v@),
{
    let mut v: Vec<PinSetup> = Vec::new();
    v.push(PinSetup { pin: 0, function: Function::UART, pull: Pull::Floating, direction: None, level: None });
    v.push(PinSetup { pin: 1, function: Function::UART, pull: Pull::Up, direction: None, level: None });
    v.push(PinSetup { pin: 2, function: Function::SPI, pull: Pull::Floating, direction: None, level: None });
    v.push(PinSetup { pin: 3, function: Function::SPI, pull: Pull::Floating, direction: None, level: None });
    v.push(PinSetup { pin: 8, function: Function::I2C, pull: Pull::Up, direction: None, level: None });
    v.push(PinSetup { pin: 9, function: Function::I2C, pull: Pull::Up, direction: None, level: None });
    v.push(PinSetup { pin: 6, function: Function::SIO, pull: Pull::Floating, direction: Some(Direction::Output), level: None });
    v.push(PinSetup { pin: 5, function: Function::SIO, pull: Pull::Floating, direction: Some(Direction::Output), level: None });
    v.push(PinSetup { pin: 7, function: Function::SIO, pull: Pull::Floating, direction: Some(Direction::Output), level: None });
    v.push(PinSetup { pin: 13, function: Function::SIO, pull: Pull::Floating, direction: Some(Direction::Output), level: Some(Level::Low) });
    v.push(PinSetup { pin: 16, function: Function::SIO, pull: Pull::Floating, direction: Some(Direction::Output), level: Some(Level::High) });
    v.push(PinSetup { pin: 17, function: Function::SIO, pull: Pull::Floating, direction: Some(Direction::Output), level: Some(Level::High) });
    v.push(PinSetup { pin: 12, function: Function::SIO, pull: Pull::Floating, direction: Some(Direction::Output), level: Some(Level::High) });
    assert(v@ =~= pin_plan_spec());
    v
}

/// The drivers the board registers, in order: GPIO, UART, SPI, I2C, LCD.
pub fn registration_order() -> (v: Vec<DeviceKind>)
    ensures
        v@ == seq![DeviceKind::Gpio, DeviceKind::Uart, DeviceKind::Spi, DeviceKind::I2c, DeviceKind::Lcd],
{
    let mut v: Vec<DeviceKind> = Vec::new();
    v.push(DeviceKind::Gpio);
    v.push(DeviceKind::Uart);
    v.push(DeviceKind::Spi);
    v.push(DeviceKind::I2c);
    v.push(DeviceKind::Lcd);
    assert(v@ =~= seq![DeviceKind::Gpio, DeviceKind::Uart, DeviceKind::Spi, DeviceKind::I2c, DeviceKind::Lcd]);
    v
}

} // verus!
