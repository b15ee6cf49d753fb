use vstd::prelude::*;

pub mod gt911;
pub mod picocalc_kb;
pub mod ws114_gpio_kb;

verus! {

/// Number of touch points a report can hold.
pub const MAX_TOUCH_POINTS: usize = 5;

/// One touch point.
#[derive(Clone, Copy, Debug, PartialEq, Eq, Structural)]
pub struct TouchPoint {
    pub id: u8,
    pub x: u16,
    pub y: u16,
    pub size: u16,
}

/// The unused touch point.
pub open spec fn empty_point() -> TouchPoint {
    TouchPoint { id: 0, x: 0, y: 0, size: 0 }
}

impl TouchPoint {
    pub fn empty() -> (p: TouchPoint)
        ensures
            p == empty_point(),
    {
        TouchPoint { id: 0, x: 0, y: 0, size: 0 }
    }
}

/// The touch points of one reading; the first `count` are valid.
#[derive(Clone, Copy, Debug)]
pub struct TouchReport {
    pub count: usize,
    pub points: [TouchPoint; 5],
}

/// One key event from a keyboard controller: its state code and key code.
#[derive(Clone, Copy, Debug, PartialEq, Eq, Structural)]
pub struct KeyValueReport {
    pub state: u8,
    pub key: u8,
}

impl KeyValueReport {
    /// The report carried by the two bytes of a FIFO read: state, then key.
    pub fn from_bytes(data: [u8; 2]) -> (r: KeyValueReport)
        ensures
            r == (KeyValueReport { state: data@[0], key: data@[1] }),
    {
        KeyValueReport { state: data[0], key: data[1] }
    }
}

/// Keys of the button boards.
#[derive(Clone, Copy, Debug, PartialEq, Eq, Structural)]
pub enum Key {
    NoKey,
    Up,
    Down,
    Left,
    Right,
    Enter,
    A,
    B,
}

/// Input events delivered to the user interface.
#[derive(Clone, Copy, Debug, PartialEq, Eq, Structural)]
pub enum InputEvent {
    KeyDown(Key),
    KeyUp(Key),
}

} // verus!
