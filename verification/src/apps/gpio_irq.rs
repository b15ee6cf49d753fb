//! The GPIO interrupt test task: which interrupts wake it, and toggling a
//! test output.
use vstd::prelude::*;

use crate::drivers::gpio::rp235x_gpio::decode_irq_event_data;

verus! {

/// The input pin whose interrupts the test task waits for.
pub const TEST_IRQ_PIN: usize = 27;

/// Whether a device interrupt is one of the test pin (any level).
pub fn test_pin_triggered(is_gpio_event: bool, data: usize) -> (r: bool)
    ensures
        r == (is_gpio_event && data % 256 == TEST_IRQ_PIN),
{
    if !is_gpio_event {
        return false;
    }
    let (pin, _level) = decode_irq_event_data(data);
    pin == TEST_IRQ_PIN
}

/// The GPIO write request that flips an output: its pin and the level
/// opposite to the one read.
pub fn toggle_request(pin: u8, current: u8) -> (req: [u8; 2])
    ensures
        req@ == seq![pin, if current == 0 { 1u8 } else { 0u8 }],
{
    let next: u8 = if current == 0 {
        1
    } else {
        0
    };
    let req = [pin, next];
    assert(req@ =~= seq![pin, next]);
    req
}

} // verus!
