use vstd::prelude::*;
use crate::error::DevError;

use super::{InputEvent, Key};
use crate::drivers::gpio::{Level, Pin};

verus! {

/// Number of buttons.
pub const MAX_KEYS: usize = 7;

/// The button wired to each pin.
pub open spec fn keys_map() -> Seq<(u32, Key)> {
    seq![(2u32, Key::Up), (3u32, Key::Enter), (15u32, Key::A), (16u32, Key::Left), (17u32, Key::B), (18u32, Key::Down), (20u32, Key::Right)]
}

/// The key of a pin, `NoKey` for pins without a button.
pub open spec fn key_of_pin(pin: int) -> Key {
    if pin == 2 {
        Key::Up
    } else if pin == 3 {
        Key::Enter
    } else if pin == 15 {
        Key::A
    } else if pin == 16 {
        Key::Left
    } else if pin == 17 {
        Key::B
    } else if pin == 18 {
        Key::Down
    } else if pin == 20 {
        Key::Right
    } else {
        Key::NoKey
    }
}

fn keys_table() -> (v: Vec<(u32, Key)>)
    ensures
        v@ == keys_map(),
{
    let mut v: Vec<(u32, Key)> = Vec::new();
    v.push((2, Key::Up));
    v.push((3, Key::Enter));
    v.push((15, Key::A));
    v.push((16, Key::Left));
    v.push((17, Key::B));
    v.push((18, Key::Down));
    v.push((20, Key::Right));
    assert(v@ =~= keys_map());
    v
}

/// The key wired to a pin, looked up in the button table.
pub fn key_for_pin(pin: &Pin) -> (k: Key)
    ensures
        k == key_of_pin(pin.0 as int),
{
    let map = keys_table();
    let mut i: usize = 0;
    while i < MAX_KEYS
        invariant
            i <= MAX_KEYS,
            map@ == keys_map(),
            forall|j: int| 0 <= j < i ==> (#[trigger] map@[j]).0 != pin.0,
        decreases MAX_KEYS - i,
    {
        if map[i].0 as usize == pin.0 {
            return map[i].1;
        }
        i = i + 1;
    }
    Key::NoKey
}

/// The event of a button interrupt: pressing pulls the pin low, releasing
/// lets it go high; pins without a button give no event.
pub fn keyboard_gpio_event(pin: &Pin, level: Level) -> (e: Option<InputEvent>)
    ensures
        key_of_pin(pin.0 as int) == Key::NoKey ==> e is None,
        key_of_pin(pin.0 as int) != Key::NoKey && level == Level::High ==> e == Some(
            InputEvent::KeyUp(key_of_pin(pin.0 as int)),
        ),
        key_of_pin(pin.0 as int) != Key::NoKey && level == Level::Low ==> e == Some(
            InputEvent::KeyDown(key_of_pin(pin.0 as int)),
        ),
{
    let key = key_for_pin(pin);
    if key == Key::NoKey {
        return None;
    }
    match level {
        Level::High => Some(InputEvent::KeyUp(key)),
        Level::Low => Some(InputEvent::KeyDown(key)),
    }
}

/// The buttons' driver state.
pub struct Ws114UartKeyboardInner {
    pub registered: bool,
}

/// The button board of the 1.14 inch display module.
pub struct Ws114GpioKeyboard {
    pub inner: Ws114UartKeyboardInner,
}

impl Ws114UartKeyboardInner {
    pub fn new() -> (s: Self)
        ensures
            !s.registered,
    {
        Ws114UartKeyboardInner { registered: false }
    }

    /// The pins that get the button interrupt handler, in table order.
    pub fn init(&mut self) -> (pins: Vec<usize>)
        ensures
            final(self).registered,
            pins@ == keys_map().map_values(|e: (u32, Key)| e.0 as usize),
    {
        let map = keys_table();
        let mut pins: Vec<usize> = Vec::new();
        let mut i: usize = 0;
        while i < MAX_KEYS
            invariant
                i <= MAX_KEYS,
                map@ == keys_map(),
                pins@ == keys_map().map_values(|e: (u32, Key)| e.0 as usize).subrange(0, i as int),
            decreases MAX_KEYS - i,
        {
            pins.push(map[i].0 as usize);
            i = i + 1;
            assert(pins@ =~= keys_map().map_values(|e: (u32, Key)| e.0 as usize).subrange(0, i as int));
        }
        assert(keys_map().map_values(|e: (u32, Key)| e.0 as usize).subrange(0, 7) =~= keys_map().map_values(|e: (u32, Key)| e.0 as usize));
        self.registered = true;
        pins
    }
}

impl Ws114GpioKeyboard {
    /// The name the driver registers under.
    pub fn compatible(&self) -> (s: &'static str)
        ensures
            s@ == "SW114 GPIO Buttons"@,
    {
        "SW114 GPIO Buttons"
    }

    /// Plain device reads are refused.
    pub fn device_read(&self, _data: &[u8]) -> (r: Result<usize, DevError>)
        ensures
            r == Err::<usize, DevError>(DevError::Unsupported),
    {
        Err(DevError::Unsupported)
    }

    /// Plain device writes are refused.
    pub fn device_write(&self, _data: &[u8]) -> (r: Result<usize, DevError>)
        ensures
            r == Err::<usize, DevError>(DevError::Unsupported),
    {
        Err(DevError::Unsupported)
    }

    pub fn new() -> (s: Self)
        ensures
            !s.inner.registered,
    {
        Ws114GpioKeyboard { inner: Ws114UartKeyboardInner::new() }
    }
}

} // verus!
