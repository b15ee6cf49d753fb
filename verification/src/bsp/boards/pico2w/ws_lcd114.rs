//! Pin plan of the ws-lcd114 board.
use vstd::prelude::*;

use super::{output, periph, plan_sound, DeviceKind, PinSetup};
use crate::drivers::gpio::{Direction, Function, Pull};

verus! {

/// The Waveshare 1.14-inch LCD board: UART0 on pins 0 and 1, SPI1 on 10 and
/// 11, the LCD's data/command, chip select, reset and backlight on 8, 9, 12
/// and 13, and two test outputs on 19 and 21.
pub open spec fn pin_plan_spec() -> Seq<PinSetup> {
    seq![
        periph(0, Function::UART, Pull::Floating),
        periph(1, Function::UART, Pull::Up),
        periph(10, Function::SPI, Pull::Floating),
        periph(11, Function::SPI, Pull::Floating),
        output(8, None),
        output(9, None),
        output(12, None),
        output(13, None),
        output(19, None),
        output(21, None),
    ]
}

/// The pins of the board, in the order they are set up.
pub fn pin_plan() -> (v: Vec<PinSetup>)
    ensures
        v@ == pin_plan_spec(),
        plan_sound(v@),
{
    let mut v: Vec<PinSetup> = Vec::new();
    v.push(PinSetup { pin: 0, function: Function::UART, pull: Pull::Floating, direction: None, level: None });
    v.push(PinSetup { pin: 1, function: Function::UART, pull: Pull::Up, direction: None, level: None });
    v.push(PinSetup { pin: 10, function: Function::SPI, pull: Pull::Floating, direction: None, level: None });
    v.push(PinSetup { pin: 11, function: Function::SPI, pull: Pull::Floating, direction: None, level: None });
    v.push(PinSetup { pin: 8, function: Function::SIO, pull: Pull::Floating, direction: Some(Direction::Output), level: None });
    v.push(PinSetup { pin: 9, function: Function::SIO, pull: Pull::Floating, direction: Some(Direction::Output), level: None });
    v.push(PinSetup { pin: 12, function: Function::SIO, pull: Pull::Floating, direction: Some(Direction::Output), level: None });
    v.push(PinSetup { pin: 13, function: Function::SIO, pull: Pull::Floating, direction: Some(Direction::Output), level: None });
    v.push(PinSetup { pin: 19, function: Function::SIO, pull: Pull::Floating, direction: Some(Direction::Output), level: None });
    v.push(PinSetup { pin: 21, function: Function::SIO, pull: Pull::Floating, direction: Some(Direction::Output), level: None });
    assert(v@ =~= pin_plan_spec());
    v
}

/// The drivers the board registers, in order: GPIO, UART, SPI, LCD, keyboard.
pub fn registration_order() -> (v: Vec<DeviceKind>)
    ensures
        v@ == seq![DeviceKind::Gpio, DeviceKind::Uart, DeviceKind::Spi, DeviceKind::Lcd, DeviceKind::Keyboard],
{
    let mut v: Vec<DeviceKind> = Vec::new();
    v.push(DeviceKind::Gpio);
    v.push(DeviceKind::Uart);
    v.push(DeviceKind::Spi);
    v.push(DeviceKind::Lcd);
    v.push(DeviceKind::Keyboard);
    assert(v@ =~= seq![DeviceKind::Gpio, DeviceKind::Uart, DeviceKind::Spi, DeviceKind::Lcd, DeviceKind::Keyboard]);
    v
}

} // verus!
