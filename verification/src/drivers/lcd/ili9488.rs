use vstd::prelude::*;

use super::{
    cmd_view, cmds_view, display_on_cmd, lcd_cmd, soft_reset_cmd, window_cmds, window_cmds_spec,
    window_fits, LcdCmd, LcdConfig,
};
use crate::drivers::gpio::{Direction, Function, Pin, Pull};
use crate::error::DevError;

verus! {

/// The start-up sequence after the hard reset: software reset, gamma curves, power and VCOM control, orientation, RGB565 pixels, interface, frame rate, inversion, display function, entry mode, adjust control, sleep out, display on, orientation.
pub open spec fn ili9488_init_spec() -> Seq<(u8, Seq<u8>, u32)> {
    seq![
        (0x01u8, Seq::<u8>::empty(), 150u32),
        (0xE0u8, seq![0x00u8, 0x03, 0x09, 0x08, 0x16, 0x0A, 0x3F, 0x78, 0x4C, 0x09, 0x0A, 0x08, 0x16, 0x1A, 0x0F], 0u32),
        (0xE1u8, seq![0x00u8, 0x16, 0x19, 0x03, 0x0F, 0x05, 0x32, 0x45, 0x46, 0x04, 0x0E, 0x0D, 0x35, 0x37, 0x0F], 0u32),
        (0xC0u8, seq![0x17u8, 0x15], 0u32),
        (0xC1u8, seq![0x41u8], 0u32),
        (0xC5u8, seq![0x00u8, 0x12, 0x80], 0u32),
        (0x36u8, seq![0x48u8], 0u32),
        (0x3Au8, seq![0x55u8], 0u32),
        (0xB0u8, seq![0x00u8], 0u32),
        (0xB1u8, seq![0xA0u8], 0u32),
        (0x21u8, Seq::<u8>::empty(), 0u32),
        (0xB4u8, seq![0x02u8], 0u32),
        (0xB6u8, seq![0x02u8, 0x02, 0x3B], 0u32),
        (0xB7u8, seq![0xC6u8], 0u32),
        (0xE9u8, seq![0x00u8], 0u32),
        (0xF7u8, seq![0xA9u8, 0x51, 0x2C, 0x82], 0u32),
        (0x11u8, Seq::<u8>::empty(), 120u32),
        (0x29u8, Seq::<u8>::empty(), 120u32),
        (0x36u8, seq![0x48u8], 0u32),
    ]
}

/// The ILI9488 panel driver's state: its pins and the panel offset.
pub struct Ili9488Inner<const W: usize, const H: usize> {
    pub dc_pin: Pin,
    pub rst_pin: Pin,
    pub cs_pin: Pin,
    pub x_offset: usize,
    pub y_offset: usize,
}

/// An ILI9488 panel of `W` x `H` pixels.
pub struct Ili9488Lcd<const W: usize, const H: usize> {
    pub inner: Ili9488Inner<W, H>,
}

impl<const W: usize, const H: usize> Ili9488Inner<W, H> {
    pub fn new(dc_pin: usize, rst_pin: usize, cs_pin: usize) -> (s: Self)
        ensures
            s.dc_pin == Pin(dc_pin),
            s.rst_pin == Pin(rst_pin),
            s.cs_pin == Pin(cs_pin),
            s.x_offset == 0,
            s.y_offset == 0,
    {
        Ili9488Inner { dc_pin: Pin(dc_pin), rst_pin: Pin(rst_pin), cs_pin: Pin(cs_pin), x_offset: 0, y_offset: 0 }
    }

    /// The pin set-up done first at start-up: data/command, chip select and
    /// reset as software-driven outputs without pulls.
    pub fn init_pins(&self) -> (v: Vec<(usize, Function, Pull, Option<Direction>)>)
        ensures
            v@ == seq![
                (self.dc_pin.0, Function::SIO, Pull::Floating, Some(Direction::Output)),
                (self.cs_pin.0, Function::SIO, Pull::Floating, Some(Direction::Output)),
                (self.rst_pin.0, Function::SIO, Pull::Floating, Some(Direction::Output)),
            ],
    {
        let mut v: Vec<(usize, Function, Pull, Option<Direction>)> = Vec::new();
        v.push((self.dc_pin.0, Function::SIO, Pull::Floating, Some(Direction::Output)));
        v.push((self.cs_pin.0, Function::SIO, Pull::Floating, Some(Direction::Output)));
        v.push((self.rst_pin.0, Function::SIO, Pull::Floating, Some(Direction::Output)));
        assert(v@ =~= seq![
            (self.dc_pin.0, Function::SIO, Pull::Floating, Some(Direction::Output)),
            (self.cs_pin.0, Function::SIO, Pull::Floating, Some(Direction::Output)),
            (self.rst_pin.0, Function::SIO, Pull::Floating, Some(Direction::Output)),
        ]);
        v
    }

    /// The commands sent after the hard reset at start-up: the software reset, then the start-up table.
    pub fn init_cmds(&self) -> (v: Vec<LcdCmd>)
        ensures
            cmds_view(v@) == ili9488_init_spec(),
    {
        let mut v: Vec<LcdCmd> = Vec::new();
        v.push(soft_reset_cmd());
        let a0: [u8; 15] = [0x00, 0x03, 0x09, 0x08, 0x16, 0x0A, 0x3F, 0x78, 0x4C, 0x09, 0x0A, 0x08, 0x16, 0x1A, 0x0F];
        v.push(lcd_cmd(0xE0, a0.as_slice(), 0));
        let a1: [u8; 15] = [0x00, 0x16, 0x19, 0x03, 0x0F, 0x05, 0x32, 0x45, 0x46, 0x04, 0x0E, 0x0D, 0x35, 0x37, 0x0F];
        v.push(lcd_cmd(0xE1, a1.as_slice(), 0));
        let a2: [u8; 2] = [0x17, 0x15];
        v.push(lcd_cmd(0xC0, a2.as_slice(), 0));
        let a3: [u8; 1] = [0x41];
        v.push(lcd_cmd(0xC1, a3.as_slice(), 0));
        let a4: [u8; 3] = [0x00, 0x12, 0x80];
        v.push(lcd_cmd(0xC5, a4.as_slice(), 0));
        let a5: [u8; 1] = [0x48];
        v.push(lcd_cmd(0x36, a5.as_slice(), 0));
        let a6: [u8; 1] = [0x55];
        v.push(lcd_cmd(0x3A, a6.as_slice(), 0));
        let a7: [u8; 1] = [0x00];
        v.push(lcd_cmd(0xB0, a7.as_slice(), 0));
        let a8: [u8; 1] = [0xA0];
        v.push(lcd_cmd(0xB1, a8.as_slice(), 0));
        let a9: [u8; 0] = [];
        v.push(lcd_cmd(0x21, a9.as_slice(), 0));
        let a10: [u8; 1] = [0x02];
        v.push(lcd_cmd(0xB4, a10.as_slice(), 0));
        let a11: [u8; 3] = [0x02, 0x02, 0x3B];
        v.push(lcd_cmd(0xB6, a11.as_slice(), 0));
        let a12: [u8; 1] = [0xC6];
        v.push(lcd_cmd(0xB7, a12.as_slice(), 0));
        let a13: [u8; 1] = [0x00];
        v.push(lcd_cmd(0xE9, a13.as_slice(), 0));
        let a14: [u8; 4] = [0xA9, 0x51, 0x2C, 0x82];
        v.push(lcd_cmd(0xF7, a14.as_slice(), 0));
        let a15: [u8; 0] = [];
        v.push(lcd_cmd(0x11, a15.as_slice(), 120));
        let a16: [u8; 0] = [];
        v.push(lcd_cmd(0x29, a16.as_slice(), 120));
        let a17: [u8; 1] = [0x48];
        v.push(lcd_cmd(0x36, a17.as_slice(), 0));
        assert(a0@ =~= seq![0x00u8, 0x03, 0x09, 0x08, 0x16, 0x0A, 0x3F, 0x78, 0x4C, 0x09, 0x0A, 0x08, 0x16, 0x1A, 0x0F]);
        assert(a1@ =~= seq![0x00u8, 0x16, 0x19, 0x03, 0x0F, 0x05, 0x32, 0x45, 0x46, 0x04, 0x0E, 0x0D, 0x35, 0x37, 0x0F]);
        assert(a2@ =~= seq![0x17u8, 0x15]);
        assert(a3@ =~= seq![0x41u8]);
        assert(a4@ =~= seq![0x00u8, 0x12, 0x80]);
        assert(a5@ =~= seq![0x48u8]);
        assert(a6@ =~= seq![0x55u8]);
        assert(a7@ =~= seq![0x00u8]);
        assert(a8@ =~= seq![0xA0u8]);
        assert(a9@ =~= Seq::<u8>::empty());
        assert(a10@ =~= seq![0x02u8]);
        assert(a11@ =~= seq![0x02u8, 0x02, 0x3B]);
        assert(a12@ =~= seq![0xC6u8]);
        assert(a13@ =~= seq![0x00u8]);
        assert(a14@ =~= seq![0xA9u8, 0x51, 0x2C, 0x82]);
        assert(a15@ =~= Seq::<u8>::empty());
        assert(a16@ =~= Seq::<u8>::empty());
        assert(a17@ =~= seq![0x48u8]);
        assert(cmds_view(v@) =~= ili9488_init_spec());
        v
    }

    /// The panel keeps its start-up orientation: configuration changes
    /// nothing.
    pub fn config(&mut self, _config: &LcdConfig) -> (r: Result<(), DevError>)
        ensures
            r is Ok,
            final(self).x_offset == old(self).x_offset,
            final(self).y_offset == old(self).y_offset,
            final(self).dc_pin == old(self).dc_pin,
            final(self).rst_pin == old(self).rst_pin,
            final(self).cs_pin == old(self).cs_pin,
    {
        Ok(())
    }

    /// Display on, with its 20 ms pause.
    pub fn display_on(&self) -> (c: LcdCmd)
        ensures
            cmd_view(c) == (0x29u8, Seq::<u8>::empty(), 20u32),
    {
        display_on_cmd()
    }

    /// The commands selecting a window, shifted by the panel offset (taken
    /// modulo 2^16).
    pub fn set_window(&self, x0: u16, y0: u16, x1: u16, y1: u16) -> (v: Vec<LcdCmd>)
        requires
            window_fits(x0, y0, x1, y1, (self.x_offset % 65536) as int, (self.y_offset % 65536) as int),
        ensures
            cmds_view(v@) == window_cmds_spec(
                x0 + self.x_offset % 65536,
                x1 - 1 + self.x_offset % 65536,
                y0 + self.y_offset % 65536,
                y1 - 1 + self.y_offset % 65536,
            ),
    {
        window_cmds(x0, y0, x1, y1, (self.x_offset % 65536) as u16, (self.y_offset % 65536) as u16)
    }

    /// The window of a `w` x `h` block at `(x, y)`.
    pub fn block_window(&self, x: u16, y: u16, w: u16, h: u16) -> (v: Vec<LcdCmd>)
        requires
            x + w <= u16::MAX,
            y + h <= u16::MAX,
            window_fits(x, y, (x + w) as u16, (y + h) as u16, (self.x_offset % 65536) as int, (self.y_offset % 65536) as int),
        ensures
            cmds_view(v@) == window_cmds_spec(
                x + self.x_offset % 65536,
                x + w - 1 + self.x_offset % 65536,
                y + self.y_offset % 65536,
                y + h - 1 + self.y_offset % 65536,
            ),
    {
        self.set_window(x, y, x + w, y + h)
    }
}

impl<const W: usize, const H: usize> Ili9488Lcd<W, H> {
    /// The name the driver registers under.
    pub fn compatible(&self) -> (s: &'static str)
        ensures
            s@ == "ILI9488 LCD"@,
    {
        "ILI9488 LCD"
    }

    /// Plain device reads are refused.
    pub fn device_read(&self, _data: &[u8]) -> (r: Result<usize, DevError>)
        ensures
            r == Err::<usize, DevError>(DevError::Unsupported),
    {
        Err(DevError::Unsupported)
    }

    /// A plain device write is accepted and takes no byte.
    pub fn device_write(&self, _data: &[u8]) -> (r: Result<usize, DevError>)
        ensures
            r == Ok::<usize, DevError>(0),
    {
        Ok(0)
    }

    pub fn new(dc_pin: usize, rst_pin: usize, cs_pin: usize) -> (s: Self)
        ensures
            s.inner.dc_pin == Pin(dc_pin),
            s.inner.rst_pin == Pin(rst_pin),
            s.inner.cs_pin == Pin(cs_pin),
            s.inner.x_offset == 0,
            s.inner.y_offset == 0,
    {
        Ili9488Lcd { inner: Ili9488Inner::new(dc_pin, rst_pin, cs_pin) }
    }
}

} // verus!
