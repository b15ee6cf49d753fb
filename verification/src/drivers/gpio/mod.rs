use vstd::prelude::*;

pub mod rp235x_gpio;

verus! {

/// A GPIO pin number.
#[derive(Copy, Clone, Debug, PartialEq, Eq, Structural)]
pub struct Pin(pub usize);

/// Peripheral functions a pin can be routed to.
#[derive(Copy, Clone, Debug, PartialEq, Eq, Structural)]
pub enum Function {
    XIP,
    SPI,
    UART,
    I2C,
    PWM,
    SIO,
    PIO0,
    PIO1,
    CLOCK,
    USB,
    NULL,
}

/// The function-select value of each function.
pub open spec fn funcsel_of(f: Function) -> u32 {
    match f {
        Function::XIP => 0,
        Function::SPI => 1,
        Function::UART => 2,
        Function::I2C => 3,
        Function::PWM => 4,
        Function::SIO => 5,
        Function::PIO0 => 6,
        Function::PIO1 => 7,
        Function::CLOCK => 8,
        Function::USB => 9,
        Function::NULL => 0x1f,
    }
}

impl Function {
    /// The function-select value.
    pub fn bits(self) -> (b: u32)
        ensures
            b == funcsel_of(self),
    {
        match self {
            Function::XIP => 0,
            Function::SPI => 1,
            Function::UART => 2,
            Function::I2C => 3,
            Function::PWM => 4,
            Function::SIO => 5,
            Function::PIO0 => 6,
            Function::PIO1 => 7,
            Function::CLOCK => 8,
            Function::USB => 9,
            Function::NULL => 0x1f,
        }
    }
}

/// Pad pull resistor.
#[derive(Copy, Clone, Debug, PartialEq, Eq, Structural)]
pub enum Pull {
    Up,
    Down,
    /// Neither resistor.
    Floating,
}

#[derive(Copy, Clone, Debug, PartialEq, Eq, Structural)]
pub enum Direction {
    Input,
    Output,
}

#[derive(Copy, Clone, Debug, PartialEq, Eq, Structural)]
pub enum Level {
    High,
    Low,
}

/// Conditions that raise a pin interrupt.
#[derive(Copy, Clone, Debug, PartialEq, Eq, Structural)]
pub enum GpioIrqTrigger {
    LevelLow,
    LevelHigh,
    EdgeLow,
    EdgeHigh,
    EdgeBoth,
}

/// Access to a bank of GPIO pins.
pub trait Gpio {
    fn eable(&self, pin: &Pin, enable: bool);

    fn set_function(&self, pin: &Pin, func: Function);

    fn set_pull(&self, pin: &Pin, pull: Pull);

    fn set_direction(&self, pin: &Pin, direction: Direction, enable: bool);

    fn set_level(&self, pin: &Pin, level: Level);

    fn get_level(&self, pin: &Pin) -> Level;

    fn set_input_hysteresis(&self, pin: &Pin, enable: bool);

    fn pin_config(&self, pin: usize, func: Function, pull: Pull, direction: Option<Direction>);

    fn enable_irq(&self, pin: &Pin, trigger: GpioIrqTrigger, debounce_ms: u32);
}

} // verus!
