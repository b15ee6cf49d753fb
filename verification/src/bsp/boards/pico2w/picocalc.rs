//! Pin plan of the picocalc board.
use vstd::prelude::*;

use super::{periph, plan_sound, DeviceKind, PinSetup};
use crate::drivers::gpio::{Function, Pull};

verus! {

/// The PicoCalc: UART0 on pins 0 and 1, SPI1 on 10 and 11, I2C1 on 6 and 7
/// (pulled up).
pub open spec fn pin_plan_spec() -> Seq<PinSetup> {
    seq![
        periph(0, Function::UART, Pull::Floating),
        periph(1, Function::UART, Pull::Up),
        periph(10, Function::SPI, Pull::Floating),
        periph(11, Function::SPI, Pull::Floating),
        periph(6, Function::I2C, Pull::Up),
        periph(7, Function::I2C, Pull::Up),
    ]
}

/// The pins of the board, in the order they are set up.
pub fn pin_plan() -> (v: Vec<PinSetup>)
    ensures
        v@ == pin_plan_spec(),
        plan_sound(v@),
{
    let mut v: Vec<PinSetup> = Vec::new();
    v.push(PinSetup { pin: 0, function: Function::UART, pull: Pull::Floating, direction: None, level: None });
    v.push(PinSetup { pin: 1, function: Function::UART, pull: Pull::Up, direction: None, level: None });
    v.push(PinSetup { pin: 10, function: Function::SPI, pull: Pull::Floating, direction: None, level: None });
    v.push(PinSetup { pin: 11, function: Function::SPI, pull: Pull::Floating, direction: None, level: None });
    v.push(PinSetup { pin: 6, function: Function::I2C, pull: Pull::Up, direction: None, level: None });
    v.push(PinSetup { pin: 7, function: Function::I2C, pull: Pull::Up, direction: None, level: None });
    assert(v@ =~= pin_plan_spec());
    v
}

/// The drivers the board registers, in order: GPIO, UART, SPI, I2C, LCD, keyboard.
pub fn registration_order() -> (v: Vec<DeviceKind>)
    ensures
        v@ == seq![DeviceKind::Gpio, DeviceKind::Uart, DeviceKind::Spi, DeviceKind::I2c, DeviceKind::Lcd, DeviceKind::Keyboard],
{
    let mut v: Vec<DeviceKind> = Vec::new();
    v.push(DeviceKind::Gpio);
    v.push(DeviceKind::Uart);
    v.push(DeviceKind::Spi);
    v.push(DeviceKind::I2c);
    v.push(DeviceKind::Lcd);
    v.push(DeviceKind::Keyboard);
    assert(v@ =~= seq![DeviceKind::Gpio, DeviceKind::Uart, DeviceKind::Spi, DeviceKind::I2c, DeviceKind::Lcd, DeviceKind::Keyboard]);
    v
}

} // verus!
