use vstd::prelude::*;
use crate::error::DevError;

use super::{
    cmd_view, cmds_view, display_on_cmd, lcd_cmd, soft_reset_cmd, window_cmds, window_cmds_spec,
    window_fits, DisplayRoation, LcdCmd, LcdConfig,
};
use crate::drivers::gpio::Pin;

verus! {

/// The start-up sequence after the hard reset: software reset, power and timing control, VCOM, orientation, RGB565 pixels, frame rate, gamma, inversion, entry mode, display function, sleep out.
pub open spec fn st7796su1_init_spec() -> Seq<(u8, Seq<u8>, u32)> {
    seq![
        (0x01u8, Seq::<u8>::empty(), 150u32),
        (0xCFu8, seq![0x00u8, 0x83, 0x30], 0u32),
        (0xEDu8, seq![0x64u8, 0x03, 0x12, 0x81], 0u32),
        (0xE8u8, seq![0x85u8, 0x01, 0x79], 0u32),
        (0xCBu8, seq![0x39u8, 0x2C, 0x00, 0x34, 0x02], 0u32),
        (0xF7u8, seq![0x20u8], 0u32),
        (0xEAu8, seq![0x00u8, 0x00], 0u32),
        (0xC0u8, seq![0x26u8], 0u32),
        (0xC1u8, seq![0x11u8], 0u32),
        (0xC5u8, seq![0x35u8, 0x3E], 0u32),
        (0xC7u8, seq![0xBEu8], 0u32),
        (0x36u8, seq![0x28u8], 0u32),
        (0x3Au8, seq![0x05u8], 0u32),
        (0xB1u8, seq![0x00u8, 0x1B], 0u32),
        (0xF2u8, seq![0x08u8], 0u32),
        (0x26u8, seq![0x01u8], 0u32),
        (0xE0u8, seq![0x1Fu8, 0x1A, 0x18, 0x0A, 0x0F, 0x06, 0x45, 0x87, 0x32, 0x0A, 0x07, 0x02, 0x07, 0x05, 0x00], 0u32),
        (0xE1u8, seq![0x00u8, 0x25, 0x27, 0x05, 0x10, 0x09, 0x3A, 0x78, 0x4D, 0x05, 0x18, 0x0D, 0x38, 0x3A, 0x1F], 0u32),
        (0x21u8, Seq::<u8>::empty(), 0u32),
        (0xB7u8, seq![0x07u8], 0u32),
        (0xB6u8, seq![0x0Au8, 0x82, 0x27, 0x00], 0u32),
        (0x11u8, seq![0x00u8], 120u32),
    ]
}

/// The memory-access control value of each rotation.
pub open spec fn st7796_madctl(r: DisplayRoation) -> u8 {
    match r {
        DisplayRoation::Roation0 => 0x48,
        DisplayRoation::Roation90 => 0x28,
        DisplayRoation::Roation180 => 0x88,
        DisplayRoation::Roation270 => 0xe8,
    }
}

/// The ST7796SU1 panel driver's state: its pins and the panel offset.
pub struct St7796su1LcdInner<const W: usize, const H: usize> {
    pub dc_pin: Pin,
    pub rst_pin: Pin,
    pub cs_pin: Pin,
    pub x_offset: usize,
    pub y_offset: usize,
}

/// An ST7796SU1 panel of `W` x `H` pixels.
pub struct St7796su1Lcd<const W: usize, const H: usize> {
    pub inner: St7796su1LcdInner<W, H>,
}

impl<const W: usize, const H: usize> St7796su1LcdInner<W, H> {
    pub fn new(dc_pin: usize, rst_pin: usize, cs_pin: usize) -> (s: Self)
        ensures
            s.dc_pin == Pin(dc_pin),
            s.rst_pin == Pin(rst_pin),
            s.cs_pin == Pin(cs_pin),
            s.x_offset == 0,
            s.y_offset == 0,
    {
        St7796su1LcdInner { dc_pin: Pin(dc_pin), rst_pin: Pin(rst_pin), cs_pin: Pin(cs_pin), x_offset: 0, y_offset: 0 }
    }

    /// The commands sent after the hard reset at start-up: the software reset, then the start-up table.
    pub fn init_cmds(&self) -> (v: Vec<LcdCmd>)
        ensures
            cmds_view(v@) == st7796su1_init_spec(),
    {
        let mut v: Vec<LcdCmd> = Vec::new();
        v.push(soft_reset_cmd());
        let a0: [u8; 3] = [0x00, 0x83, 0x30];
        v.push(lcd_cmd(0xCF, a0.as_slice(), 0));
        let a1: [u8; 4] = [0x64, 0x03, 0x12, 0x81];
        v.push(lcd_cmd(0xED, a1.as_slice(), 0));
        let a2: [u8; 3] = [0x85, 0x01, 0x79];
        v.push(lcd_cmd(0xE8, a2.as_slice(), 0));
        let a3: [u8; 5] = [0x39, 0x2C, 0x00, 0x34, 0x02];
        v.push(lcd_cmd(0xCB, a3.as_slice(), 0));
        let a4: [u8; 1] = [0x20];
        v.push(lcd_cmd(0xF7, a4.as_slice(), 0));
        let a5: [u8; 2] = [0x00, 0x00];
        v.push(lcd_cmd(0xEA, a5.as_slice(), 0));
        let a6: [u8; 1] = [0x26];
        v.push(lcd_cmd(0xC0, a6.as_slice(), 0));
        let a7: [u8; 1] = [0x11];
        v.push(lcd_cmd(0xC1, a7.as_slice(), 0));
        let a8: [u8; 2] = [0x35, 0x3E];
        v.push(lcd_cmd(0xC5, a8.as_slice(), 0));
        let a9: [u8; 1] = [0xBE];
        v.push(lcd_cmd(0xC7, a9.as_slice(), 0));
        let a10: [u8; 1] = [0x28];
        v.push(lcd_cmd(0x36, a10.as_slice(), 0));
        let a11: [u8; 1] = [0x05];
        v.push(lcd_cmd(0x3A, a11.as_slice(), 0));
        let a12: [u8; 2] = [0x00, 0x1B];
        v.push(lcd_cmd(0xB1, a12.as_slice(), 0));
        let a13: [u8; 1] = [0x08];
        v.push(lcd_cmd(0xF2, a13.as_slice(), 0));
        let a14: [u8; 1] = [0x01];
        v.push(lcd_cmd(0x26, a14.as_slice(), 0));
        let a15: [u8; 15] = [0x1F, 0x1A, 0x18, 0x0A, 0x0F, 0x06, 0x45, 0x87, 0x32, 0x0A, 0x07, 0x02, 0x07, 0x05, 0x00];
        v.push(lcd_cmd(0xE0, a15.as_slice(), 0));
        let a16: [u8; 15] = [0x00, 0x25, 0x27, 0x05, 0x10, 0x09, 0x3A, 0x78, 0x4D, 0x05, 0x18, 0x0D, 0x38, 0x3A, 0x1F];
        v.push(lcd_cmd(0xE1, a16.as_slice(), 0));
        let a17: [u8; 0] = [];
        v.push(lcd_cmd(0x21, a17.as_slice(), 0));
        let a18: [u8; 1] = [0x07];
        v.push(lcd_cmd(0xB7, a18.as_slice(), 0));
        let a19: [u8; 4] = [0x0A, 0x82, 0x27, 0x00];
        v.push(lcd_cmd(0xB6, a19.as_slice(), 0));
        let a20: [u8; 1] = [0x00];
        v.push(lcd_cmd(0x11, a20.as_slice(), 120));
        assert(a0@ =~= seq![0x00u8, 0x83, 0x30]);
        assert(a1@ =~= seq![0x64u8, 0x03, 0x12, 0x81]);
        assert(a2@ =~= seq![0x85u8, 0x01, 0x79]);
        assert(a3@ =~= seq![0x39u8, 0x2C, 0x00, 0x34, 0x02]);
        assert(a4@ =~= seq![0x20u8]);
        assert(a5@ =~= seq![0x00u8, 0x00]);
        assert(a6@ =~= seq![0x26u8]);
        assert(a7@ =~= seq![0x11u8]);
        assert(a8@ =~= seq![0x35u8, 0x3E]);
        assert(a9@ =~= seq![0xBEu8]);
        assert(a10@ =~= seq![0x28u8]);
        assert(a11@ =~= seq![0x05u8]);
        assert(a12@ =~= seq![0x00u8, 0x1B]);
        assert(a13@ =~= seq![0x08u8]);
        assert(a14@ =~= seq![0x01u8]);
        assert(a15@ =~= seq![0x1Fu8, 0x1A, 0x18, 0x0A, 0x0F, 0x06, 0x45, 0x87, 0x32, 0x0A, 0x07, 0x02, 0x07, 0x05, 0x00]);
        assert(a16@ =~= seq![0x00u8, 0x25, 0x27, 0x05, 0x10, 0x09, 0x3A, 0x78, 0x4D, 0x05, 0x18, 0x0D, 0x38, 0x3A, 0x1F]);
        assert(a17@ =~= Seq::<u8>::empty());
        assert(a18@ =~= seq![0x07u8]);
        assert(a19@ =~= seq![0x0Au8, 0x82, 0x27, 0x00]);
        assert(a20@ =~= seq![0x00u8]);
        assert(cmds_view(v@) =~= st7796su1_init_spec());
        v
    }

    /// Applies the orientation and takes the panel offset; gives the
    /// memory-access control command to send.
    pub fn config(&mut self, config: &LcdConfig) -> (c: LcdCmd)
        ensures
            cmd_view(c) == (0x36u8, seq![st7796_madctl(config.ration)], 0u32),
            final(self).x_offset == config.x_offset,
            final(self).y_offset == config.y_offset,
            final(self).dc_pin == old(self).dc_pin,
            final(self).rst_pin == old(self).rst_pin,
            final(self).cs_pin == old(self).cs_pin,
    {
        let madctl: u8 = match config.ration {
            DisplayRoation::Roation0 => 0x48,
            DisplayRoation::Roation90 => 0x28,
            DisplayRoation::Roation180 => 0x88,
            DisplayRoation::Roation270 => 0xe8,
        };
        self.x_offset = config.x_offset;
        self.y_offset = config.y_offset;
        let p: [u8; 1] = [madctl];
        assert(p@ =~= seq![st7796_madctl(config.ration)]);
        lcd_cmd(0x36, p.as_slice(), 0)
    }

    /// Display on, with its 20 ms pause.
    pub fn display_on(&self) -> (c: LcdCmd)
        ensures
            cmd_view(c) == (0x29u8, Seq::<u8>::empty(), 20u32),
    {
        display_on_cmd()
    }

    /// The commands selecting a window, shifted by the panel offset (taken
    /// modulo 2^16).
    pub fn set_window(&self, x0: u16, y0: u16, x1: u16, y1: u16) -> (v: Vec<LcdCmd>)
        requires
            window_fits(x0, y0, x1, y1, (self.x_offset % 65536) as int, (self.y_offset % 65536) as int),
        ensures
            cmds_view(v@) == window_cmds_spec(
                x0 + self.x_offset % 65536,
                x1 - 1 + self.x_offset % 65536,
                y0 + self.y_offset % 65536,
                y1 - 1 + self.y_offset % 65536,
            ),
    {
        window_cmds(x0, y0, x1, y1, (self.x_offset % 65536) as u16, (self.y_offset % 65536) as u16)
    }

    /// The window of a `w` x `h` block at `(x, y)`.
    pub fn block_window(&self, x: u16, y: u16, w: u16, h: u16) -> (v: Vec<LcdCmd>)
        requires
            x + w <= u16::MAX,
            y + h <= u16::MAX,
            window_fits(x, y, (x + w) as u16, (y + h) as u16, (self.x_offset % 65536) as int, (self.y_offset % 65536) as int),
        ensures
            cmds_view(v@) == window_cmds_spec(
                x + self.x_offset % 65536,
                x + w - 1 + self.x_offset % 65536,
                y + self.y_offset % 65536,
                y + h - 1 + self.y_offset % 65536,
            ),
    {
        self.set_window(x, y, x + w, y + h)
    }
}

impl<const W: usize, const H: usize> St7796su1Lcd<W, H> {
    /// The name the driver registers under.
    pub fn compatible(&self) -> (s: &'static str)
        ensures
            s@ == "ST7796SU1 LCD"@,
    {
        "ST7796SU1 LCD"
    }

    /// Plain device reads are refused.
    pub fn device_read(&self, _data: &[u8]) -> (r: Result<usize, DevError>)
        ensures
            r == Err::<usize, DevError>(DevError::Unsupported),
    {
        Err(DevError::Unsupported)
    }

    /// A plain device write is accepted and takes no byte.
    pub fn device_write(&self, _data: &[u8]) -> (r: Result<usize, DevError>)
        ensures
            r == Ok::<usize, DevError>(0),
    {
        Ok(0)
    }

    pub fn new(dc_pin: usize, rst_pin: usize, cs_pin: usize) -> (s: Self)
        ensures
            s.inner.dc_pin == Pin(dc_pin),
            s.inner.rst_pin == Pin(rst_pin),
            s.inner.cs_pin == Pin(cs_pin),
            s.inner.x_offset == 0,
            s.inner.y_offset == 0,
    {
        St7796su1Lcd { inner: St7796su1LcdInner::new(dc_pin, rst_pin, cs_pin) }
    }
}

} // verus!
