use minirtos::drivers::gpio::rp235x_gpio::{
    ctrl_with_function, decode_irq_bank, decode_irq_event_data, gpio_read_request, gpio_write_request,
    irq_event_data, irq_setup, level_byte, level_from_input, level_write, pad_for_function,
    pad_isolation, pad_with_direction, pad_with_pull, pad_with_schmitt, pin_mask, IrqSetup, Rp235xGpio,
    SioWrite,
};
use minirtos::drivers::gpio::{Direction, Function, GpioIrqTrigger, Level, Pin, Pull};
use minirtos::error::DevError;

#[test]
fn function_select_numbers() {
    assert_eq!(Function::XIP.bits(), 0);
    assert_eq!(Function::SPI.bits(), 1);
    assert_eq!(Function::UART.bits(), 2);
    assert_eq!(Function::SIO.bits(), 5);
    assert_eq!(Function::PIO0.bits(), 6);
    assert_eq!(Function::NULL.bits(), 0x1f);
}

#[test]
fn pad_values() {
    assert_eq!(pin_mask(5), 32);
    assert_eq!(pad_isolation(0x1ff, true), 0xff);
    assert_eq!(pad_isolation(0, false), 0x100);
    assert_eq!(pad_for_function(0x80), 0x40);
    assert_eq!(ctrl_with_function(0x1234_5678, Function::SIO), 0x1234_5665);
    assert_eq!(pad_with_pull(0xff, Pull::Floating), 0xf3);
    assert_eq!(pad_with_pull(0, Pull::Up), 0x08);
    assert_eq!(pad_with_pull(0xff, Pull::Up), 0xfb);
    assert_eq!(pad_with_pull(0xff, Pull::Down), 0xf7);
    assert_eq!(pad_with_schmitt(0, true), 2);
    assert_eq!(pad_with_schmitt(3, false), 1);
}

#[test]
fn pull_reads_back() {
    for pad in [0u32, 0xff, 0x1234_5678] {
        assert_eq!(pad_with_pull(pad_with_pull(pad, Pull::Up), Pull::Down) & 0xc, 0x4);
        assert_eq!(pad_with_pull(pad_with_pull(pad, Pull::Down), Pull::Up) & 0xc, 0x8);
        assert_eq!(pad_with_pull(pad, Pull::Floating) & 0xc, 0);
        assert_eq!(pad_with_pull(pad, Pull::Up) & !0xc, pad & !0xc);
    }
}

#[test]
fn function_reads_back() {
    for ctrl in [0u32, 0xffff_ffff, 0x1234_5678] {
        for f in [Function::SPI, Function::I2C, Function::PIO1, Function::NULL] {
            assert_eq!(ctrl_with_function(ctrl, f) & 0x1f, f.bits());
            assert_eq!(ctrl_with_function(ctrl, f) & !0x1f, ctrl & !0x1f);
        }
    }
}

#[test]
fn directions() {
    assert_eq!(pad_with_direction(0, 3, Direction::Output, true), (0x40, SioWrite { set: true, mask: 8 }));
    assert_eq!(pad_with_direction(0, 3, Direction::Input, true), (0xc0, SioWrite { set: false, mask: 8 }));
    assert_eq!(pad_with_direction(0xff, 3, Direction::Input, false), (0xbf, SioWrite { set: false, mask: 8 }));
    assert_eq!(pad_with_direction(0, 3, Direction::Output, false), (0x80, SioWrite { set: false, mask: 8 }));
    assert_eq!(level_write(4, Level::High), SioWrite { set: true, mask: 16 });
    assert_eq!(level_write(4, Level::Low), SioWrite { set: false, mask: 16 });
    assert_eq!(level_from_input(0b100, 2), Level::High);
    assert_eq!(level_from_input(0b100, 1), Level::Low);
}

#[test]
fn interrupt_setup() {
    assert_eq!(irq_setup(10, GpioIrqTrigger::EdgeLow), IrqSetup { bank: 1, clear_mask: 0xf00, enable_mask: 0x400 });
    assert_eq!(
        irq_setup(7, GpioIrqTrigger::EdgeBoth),
        IrqSetup { bank: 0, clear_mask: 0xf000_0000, enable_mask: 0xc000_0000 }
    );
    assert_eq!(irq_setup(0, GpioIrqTrigger::LevelHigh), IrqSetup { bank: 0, clear_mask: 0xf, enable_mask: 0x2 });
}

#[test]
fn interrupt_bank_decoding() {
    assert_eq!(decode_irq_bank(1, 0x0000_4010), vec![(9, 1), (11, 4)]);
    assert_eq!(decode_irq_bank(0, 0), vec![]);
    assert_eq!(decode_irq_bank(3, 0xc000_0000), vec![(31, 0xc)]);
}

#[test]
fn interrupt_event_data_round_trip() {
    assert_eq!(irq_event_data(27, Level::Low), 27);
    assert_eq!(irq_event_data(27, Level::High), 283);
    assert_eq!(decode_irq_event_data(283), (27, 1));
    assert_eq!(decode_irq_event_data(irq_event_data(15, Level::Low)), (15, 0));
}

#[test]
fn device_requests() {
    assert_eq!(gpio_read_request(&[5]), Err(DevError::InvalidArg));
    assert_eq!(gpio_read_request(&[5, 0]), Ok(Pin(5)));
    assert_eq!(gpio_write_request(&[5]), Err(DevError::InvalidArg));
    assert_eq!(gpio_write_request(&[5, 0]), Ok((Pin(5), Level::Low)));
    assert_eq!(gpio_write_request(&[5, 2]), Ok((Pin(5), Level::High)));
    assert_eq!(level_byte(Level::High), 1);
    assert_eq!(level_byte(Level::Low), 0);
}

#[test]
fn handler_table() {
    let mut g: Rp235xGpio<u32, u8> = Rp235xGpio::new();
    assert_eq!(g.irq_handler(&Pin(3)), None);
    g.register_irq_handler(&Pin(3), Some(7));
    assert_eq!(g.irq_handler(&Pin(3)), Some(7));
    assert_eq!(g.irq_handler(&Pin(4)), None);
    assert_eq!(g.irq_callback(), None);
    g.set_irq_callback(Some(1));
    assert_eq!(g.irq_callback(), Some(1));
    assert_eq!(g.irq_handler(&Pin(3)), Some(7));
    g.register_irq_handler(&Pin(3), None);
    assert_eq!(g.irq_handler(&Pin(3)), None);
}
