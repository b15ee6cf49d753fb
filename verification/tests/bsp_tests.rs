use minirtos::bsp::boards::pico2w::{
    bd52pi, board_init_check, picocalc, ws_lcd114, DeviceKind, PinSetup, Pico2wBoard,
};
use minirtos::error::DevError;
use minirtos::bsp::mcu::rp235x_interrupt::{Rp235xIrqManger, INTR_CNT};
use minirtos::drivers::gpio::{Direction, Function, Level, Pull};

fn sound(plan: &[PinSetup]) -> bool {
    let radio = [23usize, 24, 25, 29];
    plan.iter().enumerate().all(|(i, p)| {
        !radio.contains(&p.pin) && plan[i + 1..].iter().all(|q| q.pin != p.pin)
    })
}

#[test]
fn board_name() {
    assert_eq!(Pico2wBoard.board_name(), "Raspberry Pico 2W");
}

#[test]
fn ws_lcd114_plan() {
    let p = ws_lcd114::pin_plan();
    assert_eq!(p.len(), 10);
    assert_eq!(p[1], PinSetup { pin: 1, function: Function::UART, pull: Pull::Up, direction: None, level: None });
    assert_eq!(
        p[7],
        PinSetup { pin: 13, function: Function::SIO, pull: Pull::Floating, direction: Some(Direction::Output), level: None }
    );
    assert!(sound(&p));
}

#[test]
fn bd52pi_plan() {
    let p = bd52pi::pin_plan();
    assert_eq!(p.len(), 13);
    assert_eq!(p[4], PinSetup { pin: 8, function: Function::I2C, pull: Pull::Up, direction: None, level: None });
    assert_eq!(p[9].pin, 13);
    assert_eq!(p[9].level, Some(Level::Low));
    assert_eq!(p[12].pin, 12);
    assert_eq!(p[12].level, Some(Level::High));
    assert!(sound(&p));
}

#[test]
fn picocalc_plan() {
    let p = picocalc::pin_plan();
    let pins: Vec<usize> = p.iter().map(|s| s.pin).collect();
    assert_eq!(pins, vec![0, 1, 10, 11, 6, 7]);
    assert!(p.iter().all(|s| s.direction.is_none()));
    assert!(sound(&p));
}

#[test]
fn irq_table_gives_back_what_was_registered() {
    let mut t: Rp235xIrqManger<u32> = Rp235xIrqManger::new();
    assert!(t.enumerate().is_empty());
    assert_eq!(INTR_CNT, 52);
    t.register_irq_handler(33, 7);
    t.register_irq_handler(21, 5);
    assert_eq!(t.dispatch(33), Some(7));
    assert_eq!(t.dispatch(21), Some(5));
    assert_eq!(t.dispatch(20), None);
    assert_eq!(t.dispatch(51), None);
    assert_eq!(t.enumerate(), vec![(21, 5), (33, 7)]);
    t.register_irq_handler(33, 9);
    assert_eq!(t.dispatch(33), Some(9));
    assert_eq!(t.enumerate(), vec![(21, 5), (33, 9)]);
}

#[test]
fn bring_up_once_and_registration_order() {
    assert_eq!(board_init_check(false), Ok(()));
    assert_eq!(board_init_check(true), Err(DevError::DevAlreadyInit));
    use_order(
        ws_lcd114::registration_order(),
        &[DeviceKind::Gpio, DeviceKind::Uart, DeviceKind::Spi, DeviceKind::Lcd, DeviceKind::Keyboard],
    );
    use_order(
        bd52pi::registration_order(),
        &[DeviceKind::Gpio, DeviceKind::Uart, DeviceKind::Spi, DeviceKind::I2c, DeviceKind::Lcd],
    );
    use_order(
        picocalc::registration_order(),
        &[DeviceKind::Gpio, DeviceKind::Uart, DeviceKind::Spi, DeviceKind::I2c, DeviceKind::Lcd, DeviceKind::Keyboard],
    );
}

fn use_order(got: Vec<DeviceKind>, expected: &[DeviceKind]) {
    assert_eq!(got, expected.to_vec());
}
