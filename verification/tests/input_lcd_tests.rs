use minirtos::drivers::input::gt911::{Gt911, Gt911Inner, Gt911Status, REG_STATUS};
use minirtos::drivers::input::picocalc_kb::{PicocalcKeyboard, PicocalcKeyboardInner};
use minirtos::drivers::input::ws114_gpio_kb::{key_for_pin, keyboard_gpio_event, Ws114GpioKeyboard, Ws114UartKeyboardInner};
use minirtos::drivers::input::{InputEvent, Key, KeyValueReport, TouchPoint};
use minirtos::drivers::gpio::{Level, Pin};
use minirtos::drivers::lcd::st7789vw::{blit_request, BlitRequest, St7789vwLcd, St7789vwLcdInner};
use minirtos::drivers::lcd::{
    cmds_ops, data_ops, display_on_cmd, flush_len, hard_reset_ops, lcd_cmd, soft_reset_cmd, window_cmds,
    DisplayRoation, LcdCmd, LcdConfig, PanelOp,
};
use minirtos::error::DevError;

fn view(c: &LcdCmd) -> (u8, Vec<u8>, u32) {
    (c.cmd, c.data.clone(), c.delay_ms)
}

#[test]
fn touch_status() {
    let t = Gt911Inner::new(0x5d);
    assert_eq!(t.status(0x00), Gt911Status::NotReady);
    assert_eq!(t.status(0x7f), Gt911Status::NotReady);
    assert_eq!(t.status(0x80), Gt911Status::NoPoints);
    assert_eq!(t.status(0x83), Gt911Status::Points(3));
    assert_eq!(t.status(0x8f), Gt911Status::Points(5));
    assert_eq!(t.read_reg_request(REG_STATUS), vec![0x81, 0x4e]);
    assert_eq!(t.clear_status(), vec![0x81, 0x4e, 0]);
    assert_eq!(t.write_reg_frame(0x8040, &[1, 2]), Ok(vec![0x80, 0x40, 1, 2]));
    assert_eq!(t.write_reg_frame(0x8040, &[0; 7]), Err(DevError::InvalidArg));
    assert_eq!(Gt911::new(0x14).inner.addr, 0x14);
}

#[test]
fn touch_points() {
    let t = Gt911Inner::new(0x5d);
    let buf = [1u8, 0x10, 0x00, 0x20, 0x01, 0x05, 0x00, 0x00, 2, 0x34, 0x12, 0x78, 0x56, 0x02, 0x00, 0x00];
    let r = t.decode_points(&buf, 2);
    assert_eq!(r.count, 2);
    assert_eq!(r.points[0], TouchPoint { id: 1, x: 0x10, y: 0x120, size: 5 });
    assert_eq!(r.points[1], TouchPoint { id: 2, x: 0x1234, y: 0x5678, size: 2 });
    assert_eq!(r.points[2], TouchPoint::empty());
}

#[test]
fn picocalc_keys() {
    let k = PicocalcKeyboardInner::new(0x1f);
    assert_eq!(k.init(), Ok(()));
    assert_eq!(k.key_count(0xe3), 3);
    assert_eq!(k.read_key_event_check(2), Ok(()));
    assert_eq!(k.read_key_event_check(1), Err(DevError::InvalidArg));
    assert_eq!(k.key_value(0, [1, 0x41]), None);
    assert_eq!(k.key_value(2, [1, 0x41]), Some(KeyValueReport { state: 1, key: 0x41 }));
    assert_eq!(KeyValueReport::from_bytes([3, 0xb5]), KeyValueReport { state: 3, key: 0xb5 });
    assert_eq!(PicocalcKeyboard::new(0x1f).inner.addr, 0x1f);
}

#[test]
fn button_board() {
    assert_eq!(key_for_pin(&Pin(2)), Key::Up);
    assert_eq!(key_for_pin(&Pin(20)), Key::Right);
    assert_eq!(key_for_pin(&Pin(19)), Key::NoKey);
    assert_eq!(keyboard_gpio_event(&Pin(3), Level::Low), Some(InputEvent::KeyDown(Key::Enter)));
    assert_eq!(keyboard_gpio_event(&Pin(3), Level::High), Some(InputEvent::KeyUp(Key::Enter)));
    assert_eq!(keyboard_gpio_event(&Pin(4), Level::Low), None);
    let mut k = Ws114UartKeyboardInner::new();
    assert!(!k.registered);
    assert_eq!(k.init(), vec![2, 3, 15, 16, 17, 18, 20]);
    assert!(k.registered);
    assert!(!Ws114GpioKeyboard::new().inner.registered);
}

#[test]
fn lcd_commands() {
    assert_eq!(view(&lcd_cmd(0x36, &[0x70], 0)), (0x36, vec![0x70], 0));
    assert_eq!(view(&soft_reset_cmd()), (0x01, vec![], 150));
    assert_eq!(view(&display_on_cmd()), (0x29, vec![], 20));
    assert_eq!(flush_len(100, 4, 4), 32);
    assert_eq!(flush_len(10, 4, 4), 10);
    let w: Vec<_> = window_cmds(0, 0, 240, 135, 40, 53).iter().map(view).collect();
    assert_eq!(w, vec![(0x2a, vec![0, 40, 1, 23], 0), (0x2b, vec![0, 53, 0, 187], 0), (0x2c, vec![], 0)]);
}

#[test]
fn st7789_panel() {
    let mut p = St7789vwLcdInner::new(8, 12, 9);
    assert_eq!(p.dc_pin, Pin(8));
    let init: Vec<_> = p.init().iter().map(view).collect();
    assert_eq!(init.len(), 15);
    assert_eq!(init[0], (0x01, vec![], 150));
    assert_eq!(init[1], (0x3a, vec![0x05], 0));
    assert_eq!(init[14], (0x11, vec![], 150));
    assert_eq!(view(&p.config(&LcdConfig::default())), (0x36, vec![0x70], 0));
    assert_eq!((p.x_offset, p.y_offset), (40, 53));
    let w: Vec<_> = p.set_window(0, 0, 240, 135).iter().map(view).collect();
    assert_eq!(w[0], (0x2a, vec![0, 40, 1, 23], 0));
    assert_eq!(w[1], (0x2b, vec![0, 53, 0, 187], 0));
    let (cmds, n) = p.flush_buf(0, 0, 10, 10, 1000);
    assert_eq!(cmds.len(), 3);
    assert_eq!(n, 200);
    let r = LcdConfig { ration: DisplayRoation::Roation180, x_offset: 0, y_offset: 0 };
    assert_eq!(view(&p.config(&r)), (0x36, vec![0x38], 0));
    assert_eq!(St7789vwLcd::new(1, 2, 3).inner.cs_pin, Pin(3));
}

#[test]
fn blit_requests() {
    assert_eq!(
        blit_request(&[0, 1, 0, 2, 0, 3, 0, 4, 0xde, 0xad, 0xbe, 0xef]),
        Ok(BlitRequest { x: 1, y: 2, w: 3, h: 4, addr: 0xdead_beef })
    );
    assert_eq!(blit_request(&[0; 5]), Err(DevError::InvalidArg));
}

#[derive(Debug, PartialEq)]
enum Step {
    Pin(usize, bool),
    Wait(u32),
    Spi(Vec<u8>),
}

fn steps(ops: &[PanelOp]) -> Vec<Step> {
    ops.iter()
        .map(|o| match o {
            PanelOp::SetPin { pin, high } => Step::Pin(pin.0, *high),
            PanelOp::Wait { ms } => Step::Wait(*ms),
            PanelOp::Send { bytes } => Step::Spi(bytes.clone()),
        })
        .collect()
}

#[test]
fn panel_steps() {
    assert_eq!(
        steps(&hard_reset_ops(Pin(12))),
        vec![Step::Pin(12, false), Step::Wait(10), Step::Pin(12, true), Step::Wait(120)]
    );
    assert_eq!(
        steps(&data_ops(Pin(8), Pin(9), &[1, 2])),
        vec![Step::Pin(8, true), Step::Pin(9, false), Step::Spi(vec![1, 2]), Step::Pin(9, true)]
    );
    let cmds = [lcd_cmd(0x36, &[0x70], 0), display_on_cmd()];
    assert_eq!(
        steps(&cmds_ops(Pin(8), Pin(9), &cmds)),
        vec![
            Step::Pin(8, false), Step::Pin(9, false), Step::Spi(vec![0x36]), Step::Pin(9, true),
            Step::Pin(8, true), Step::Pin(9, false), Step::Spi(vec![0x70]), Step::Pin(9, true),
            Step::Pin(8, false), Step::Pin(9, false), Step::Spi(vec![0x29]), Step::Pin(9, true),
            Step::Wait(20),
        ]
    );
}

#[test]
fn st7789_start_up_steps() {
    let ops = steps(&St7789vwLcdInner::new(8, 12, 9).init_ops());
    assert_eq!(&ops[..4], &[Step::Pin(12, false), Step::Wait(10), Step::Pin(12, true), Step::Wait(120)]);
    let mut writes = Vec::new();
    let mut dc = None;
    for s in &ops[4..] {
        match s {
            Step::Pin(8, high) => dc = Some(*high),
            Step::Pin(9, _) | Step::Wait(_) => {}
            Step::Spi(b) => writes.push((dc.unwrap(), b.clone())),
            other => panic!("unexpected step {:?}", other),
        }
    }
    let hex = |s: &str| -> Vec<u8> { (0..s.len()).step_by(2).map(|i| u8::from_str_radix(&s[i..i + 2], 16).unwrap()).collect() };
    let expected = [
        "01", "3A", "05", "B2", "0C0C003333", "B7", "35", "BB", "19", "C0", "2C", "C2", "01", "C3", "12", "C4", "20",
        "C6", "0F", "D0", "A4A1", "E0", "D0040D11132B3F544C180D0B1F23", "E1", "D0040C11132C3F44512F1F1F2023", "21",
        "11",
    ];
    let data_after = ["3A", "B2", "B7", "BB", "C0", "C2", "C3", "C4", "C6", "D0", "E0", "E1"];
    assert_eq!(writes.len(), expected.len());
    let mut prev_cmd: Option<&str> = None;
    for (i, (high, bytes)) in writes.iter().enumerate() {
        assert_eq!(bytes, &hex(expected[i]));
        let is_data = prev_cmd.map_or(false, |c| data_after.contains(&c));
        assert_eq!(*high, is_data, "write {}", i);
        prev_cmd = if is_data { None } else { Some(expected[i]) };
    }
    assert!(ops.contains(&Step::Wait(150)));
}
