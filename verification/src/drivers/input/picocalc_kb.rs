use vstd::prelude::*;
use crate::bits::lemma_u8_bits;

use super::KeyValueReport;
use crate::error::DevError;

verus! {

/// Register holding the number of pending key events (bits 4..0).
pub const REG_ID_KEY: u8 = 0x04;
/// Register of the key-event FIFO.
pub const REG_ID_FIF: u8 = 0x09;
pub const KEY_COUNT_MASK: u8 = 0x1f;

/// The keyboard controller driver's state: its bus address.
pub struct PicocalcKeyboardInner {
    pub addr: u8,
}

/// The PicoCalc keyboard.
pub struct PicocalcKeyboard {
    pub inner: PicocalcKeyboardInner,
}

impl PicocalcKeyboardInner {
    pub fn new(addr: u8) -> (s: Self)
        ensures
            s.addr == addr,
    {
        PicocalcKeyboardInner { addr }
    }

    /// Nothing to set up.
    pub fn init(&self) -> (r: Result<(), DevError>)
        ensures
            r is Ok,
    {
        Ok(())
    }

    /// The pending key events in the first byte of the count register.
    pub fn key_count(&self, status: u8) -> (n: u8)
        ensures
            n == status % 32,
    {
        proof {
            lemma_u8_bits(status);
        }
        let n = status & KEY_COUNT_MASK;
        n
    }

    /// A key event is read into exactly two bytes; other buffers are refused.
    pub fn read_key_event_check(&self, len: usize) -> (r: Result<(), DevError>)
        ensures
            len == 2 <==> r is Ok,
            r is Err ==> r == Err::<(), DevError>(DevError::InvalidArg),
    {
        if len != 2 {
            return Err(DevError::InvalidArg);
        }
        Ok(())
    }

    /// The report of a read: nothing when no event is pending, otherwise the
    /// event read from the FIFO.
    pub fn key_value(&self, count: u8, event: [u8; 2]) -> (r: Option<KeyValueReport>)
        ensures
            count == 0 ==> r is None,
            count != 0 ==> r == Some(KeyValueReport { state: event@[0], key: event@[1] }),
    {
        if count == 0 {
            return None;
        }
        Some(KeyValueReport::from_bytes(event))
    }
}

impl PicocalcKeyboard {
    /// The name the driver registers under.
    pub fn compatible(&self) -> (s: &'static str)
        ensures
            s@ == "Picocalc Keyboayd"@,
    {
        "Picocalc Keyboayd"
    }

    /// Plain device reads are refused.
    pub fn device_read(&self, _data: &[u8]) -> (r: Result<usize, DevError>)
        ensures
            r == Err::<usize, DevError>(DevError::Unsupported),
    {
        Err(DevError::Unsupported)
    }

    /// Plain device writes are refused.
    pub fn device_write(&self, _data: &[u8]) -> (r: Result<usize, DevError>)
        ensures
            r == Err::<usize, DevError>(DevError::Unsupported),
    {
        Err(DevError::Unsupported)
    }

    pub fn new(addr: u8) -> (s: Self)
        ensures
            s.inner.addr == addr,
    {
        PicocalcKeyboard { inner: PicocalcKeyboardInner::new(addr) }
    }
}

} // verus!
