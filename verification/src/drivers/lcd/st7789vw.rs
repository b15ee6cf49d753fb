use vstd::prelude::*;

use super::{
    cmd_view, cmds_acts, cmds_ops, cmds_view, display_on_cmd, hard_reset_acts, hard_reset_ops, ops_view,
    PanelOp, flush_len, lcd_cmd, soft_reset_cmd, window_cmds,
    window_cmds_spec, window_fits, DisplayRoation, LcdCmd, LcdConfig,
};
use crate::drivers::gpio::Pin;
use crate::error::DevError;

verus! {

/// The memory-access control value of each rotation.
pub open spec fn st7789_madctl(r: DisplayRoation) -> u8 {
    match r {
        DisplayRoation::Roation0 => 0x00,
        DisplayRoation::Roation90 => 0x70,
        DisplayRoation::Roation180 => 0x38,
        DisplayRoation::Roation270 => 0x68,
    }
}

/// The memory-access control byte the panel is given for each rotation:
/// 0x00 upright, 0x70 at 90 degrees, 0x38 at 180 and 0x68 at 270; two
/// different rotations never share a byte, and every byte but the upright
/// one exchanges rows and columns (bit 5).
pub proof fn lemma_madctl_per_rotation(a: DisplayRoation, b: DisplayRoation)
    ensures
        st7789_madctl(DisplayRoation::Roation0) == 0x00,
        st7789_madctl(DisplayRoation::Roation90) == 0x70,
        st7789_madctl(DisplayRoation::Roation180) == 0x38,
        st7789_madctl(DisplayRoation::Roation270) == 0x68,
        a != b ==> st7789_madctl(a) != st7789_madctl(b),
        a != DisplayRoation::Roation0 ==> (st7789_madctl(a) / 32) % 2 == 1,
{
}

/// The start-up sequence after the hard reset: software reset, RGB565
/// pixels, porch, gate, VCOM, LCM, VDV/VRH, frame rate, power, both gamma
/// curves, inversion, then sleep out.
pub open spec fn st7789_init_spec() -> Seq<(u8, Seq<u8>, u32)> {
    seq![
        (0x01u8, Seq::<u8>::empty(), 150u32),
        (0x3Au8, seq![0x05u8], 0u32),
        (0xB2u8, seq![0x0Cu8, 0x0C, 0x00, 0x33, 0x33], 0u32),
        (0xB7u8, seq![0x35u8], 0u32),
        (0xBBu8, seq![0x19u8], 0u32),
        (0xC0u8, seq![0x2Cu8], 0u32),
        (0xC2u8, seq![0x01u8], 0u32),
        (0xC3u8, seq![0x12u8], 0u32),
        (0xC4u8, seq![0x20u8], 0u32),
        (0xC6u8, seq![0x0Fu8], 0u32),
        (0xD0u8, seq![0xA4u8, 0xA1], 0u32),
        (0xE0u8, seq![0xD0u8, 0x04, 0x0D, 0x11, 0x13, 0x2B, 0x3F, 0x54, 0x4C, 0x18, 0x0D, 0x0B, 0x1F, 0x23], 0u32),
        (0xE1u8, seq![0xD0u8, 0x04, 0x0C, 0x11, 0x13, 0x2C, 0x3F, 0x44, 0x51, 0x2F, 0x1F, 0x1F, 0x20, 0x23], 0u32),
        (0x21u8, Seq::<u8>::empty(), 0u32),
        (0x11u8, Seq::<u8>::empty(), 150u32),
    ]
}

/// The ST7789VW panel driver's state: its pins and the panel offset.
pub struct St7789vwLcdInner {
    pub dc_pin: Pin,
    pub rst_pin: Pin,
    pub cs_pin: Pin,
    pub x_offset: u32,
    pub y_offset: u32,
}

/// An ST7789VW panel.
pub struct St7789vwLcd {
    pub inner: St7789vwLcdInner,
}

impl St7789vwLcdInner {
    pub fn new(dc_pin: usize, rst_pin: usize, cs_pin: usize) -> (s: Self)
        ensures
            s.dc_pin == Pin(dc_pin),
            s.rst_pin == Pin(rst_pin),
            s.cs_pin == Pin(cs_pin),
            s.x_offset == 0,
            s.y_offset == 0,
    {
        St7789vwLcdInner {
            dc_pin: Pin(dc_pin),
            rst_pin: Pin(rst_pin),
            cs_pin: Pin(cs_pin),
            x_offset: 0,
            y_offset: 0,
        }
    }

    /// Everything start-up does to the panel: the hard reset on the reset
    /// pin, then the start-up commands, each command byte with DC low and
    /// each parameter block with DC high, framed by chip select.
    pub fn init_ops(&self) -> (v: Vec<PanelOp>)
        ensures
            ops_view(v@) == hard_reset_acts(self.rst_pin) + cmds_acts(
                self.dc_pin,
                self.cs_pin,
                st7789_init_spec(),
            ),
    {
        let mut v = hard_reset_ops(self.rst_pin);
        let cmds = self.init();
        let mut rest = cmds_ops(self.dc_pin, self.cs_pin, cmds.as_slice());
        let ghost a = v@;
        let ghost b = rest@;
        v.append(&mut rest);
        assert(v@ =~= a + b);
        assert(ops_view(v@) =~= ops_view(a) + ops_view(b));
        v
    }

    /// The commands sent after the hard reset at start-up.
    pub fn init(&self) -> (v: Vec<LcdCmd>)
        ensures
            cmds_view(v@) == st7789_init_spec(),
    {
        let e: [u8; 0] = [];
        let a: [u8; 1] = [0x05];
        let b: [u8; 5] = [0x0C, 0x0C, 0x00, 0x33, 0x33];
        let c: [u8; 1] = [0x35];
        let d: [u8; 1] = [0x19];
        let f: [u8; 1] = [0x2C];
        let g: [u8; 1] = [0x01];
        let h: [u8; 1] = [0x12];
        let i: [u8; 1] = [0x20];
        let j: [u8; 1] = [0x0F];
        let k: [u8; 2] = [0xA4, 0xA1];
        let gp: [u8; 14] = [
            0xD0, 0x04, 0x0D, 0x11, 0x13, 0x2B, 0x3F, 0x54, 0x4C, 0x18, 0x0D, 0x0B, 0x1F, 0x23,
        ];
        let gn: [u8; 14] = [
            0xD0, 0x04, 0x0C, 0x11, 0x13, 0x2C, 0x3F, 0x44, 0x51, 0x2F, 0x1F, 0x1F, 0x20, 0x23,
        ];
        let mut v: Vec<LcdCmd> = Vec::new();
        v.push(soft_reset_cmd());
        v.push(lcd_cmd(0x3A, a.as_slice(), 0));
        v.push(lcd_cmd(0xB2, b.as_slice(), 0));
        v.push(lcd_cmd(0xB7, c.as_slice(), 0));
        v.push(lcd_cmd(0xBB, d.as_slice(), 0));
        v.push(lcd_cmd(0xC0, f.as_slice(), 0));
        v.push(lcd_cmd(0xC2, g.as_slice(), 0));
        v.push(lcd_cmd(0xC3, h.as_slice(), 0));
        v.push(lcd_cmd(0xC4, i.as_slice(), 0));
        v.push(lcd_cmd(0xC6, j.as_slice(), 0));
        v.push(lcd_cmd(0xD0, k.as_slice(), 0));
        v.push(lcd_cmd(0xE0, gp.as_slice(), 0));
        v.push(lcd_cmd(0xE1, gn.as_slice(), 0));
        v.push(lcd_cmd(0x21, e.as_slice(), 0));
        v.push(lcd_cmd(0x11, e.as_slice(), 150));
        assert(e@ =~= Seq::<u8>::empty());
        assert(a@ =~= seq![0x05u8]);
        assert(b@ =~= seq![0x0Cu8, 0x0C, 0x00, 0x33, 0x33]);
        assert(c@ =~= seq![0x35u8]);
        assert(d@ =~= seq![0x19u8]);
        assert(f@ =~= seq![0x2Cu8]);
        assert(g@ =~= seq![0x01u8]);
        assert(h@ =~= seq![0x12u8]);
        assert(i@ =~= seq![0x20u8]);
        assert(j@ =~= seq![0x0Fu8]);
        assert(k@ =~= seq![0xA4u8, 0xA1]);
        assert(gp@ =~= seq![0xD0u8, 0x04, 0x0D, 0x11, 0x13, 0x2B, 0x3F, 0x54, 0x4C, 0x18, 0x0D, 0x0B, 0x1F, 0x23]);
        assert(gn@ =~= seq![0xD0u8, 0x04, 0x0C, 0x11, 0x13, 0x2C, 0x3F, 0x44, 0x51, 0x2F, 0x1F, 0x1F, 0x20, 0x23]);
        assert(cmds_view(v@) =~= st7789_init_spec());
        v
    }

    /// Applies the orientation and takes the panel offset; gives the
    /// memory-access control command to send.
    pub fn config(&mut self, config: &LcdConfig) -> (c: LcdCmd)
        requires
            config.x_offset <= u32::MAX,
            config.y_offset <= u32::MAX,
        ensures
            cmd_view(c) == (0x36u8, seq![st7789_madctl(config.ration)], 0u32),
            final(self).x_offset == config.x_offset,
            final(self).y_offset == config.y_offset,
            final(self).dc_pin == old(self).dc_pin,
            final(self).rst_pin == old(self).rst_pin,
            final(self).cs_pin == old(self).cs_pin,
    {
        let madctl: u8 = match config.ration {
            DisplayRoation::Roation0 => 0x00,
            DisplayRoation::Roation90 => 0x70,
            DisplayRoation::Roation180 => 0x38,
            DisplayRoation::Roation270 => 0x68,
        };
        self.x_offset = config.x_offset as u32;
        self.y_offset = config.y_offset as u32;
        let p: [u8; 1] = [madctl];
        assert(p@ =~= seq![st7789_madctl(config.ration)]);
        lcd_cmd(0x36, p.as_slice(), 0)
    }

    /// Sleep out, with its 150 ms pause.
    pub fn sleep_out(&self) -> (c: LcdCmd)
        ensures
            cmd_view(c) == (0x11u8, Seq::<u8>::empty(), 150u32),
    {
        let e: [u8; 0] = [];
        assert(e@ =~= Seq::<u8>::empty());
        lcd_cmd(0x11, e.as_slice(), 150)
    }

    /// Display on, with its 20 ms pause.
    pub fn display_on(&self) -> (c: LcdCmd)
        ensures
            cmd_view(c) == (0x29u8, Seq::<u8>::empty(), 20u32),
    {
        display_on_cmd()
    }

    /// The commands selecting a window, shifted by the panel offset (taken
    /// modulo 2^16).
    pub fn set_window(&self, x0: u16, y0: u16, x1: u16, y1: u16) -> (v: Vec<LcdCmd>)
        requires
            window_fits(x0, y0, x1, y1, (self.x_offset % 65536) as int, (self.y_offset % 65536) as int),
        ensures
            cmds_view(v@) == window_cmds_spec(
                x0 + self.x_offset % 65536,
                x1 - 1 + self.x_offset % 65536,
                y0 + self.y_offset % 65536,
                y1 - 1 + self.y_offset % 65536,
            ),
    {
        window_cmds(x0, y0, x1, y1, (self.x_offset % 65536) as u16, (self.y_offset % 65536) as u16)
    }

    /// Flushing a `w` x `h` block at `(x, y)`: the window commands and how
    /// many bytes of the buffer to send.
    pub fn flush_buf(&self, x: u16, y: u16, w: u16, h: u16, buf_len: usize) -> (r: (Vec<LcdCmd>, usize))
        requires
            x + w <= u16::MAX,
            y + h <= u16::MAX,
            window_fits(x, y, (x + w) as u16, (y + h) as u16, (self.x_offset % 65536) as int, (self.y_offset % 65536) as int),
            w * h * 2 <= usize::MAX,
        ensures
            cmds_view(r.0@) == window_cmds_spec(
                x + self.x_offset % 65536,
                x + w - 1 + self.x_offset % 65536,
                y + self.y_offset % 65536,
                y + h - 1 + self.y_offset % 65536,
            ),
            r.1 == (if buf_len > w * h * 2 { w * h * 2 } else { buf_len as int }),
    {
        let n = flush_len(buf_len, w, h);
        (self.set_window(x, y, x + w, y + h), n)
    }
}

/// A block write request to the device: 16-bit big-endian x, y, width,
/// height, then the 32-bit big-endian address of the pixel data.
#[derive(Copy, Clone, Debug, PartialEq, Eq, Structural)]
pub struct BlitRequest {
    pub x: u16,
    pub y: u16,
    pub w: u16,
    pub h: u16,
    pub addr: u32,
}

/// Takes apart a block write request; requests shorter than eight bytes are
/// refused (the address is read from bytes 8 to 11).
pub fn blit_request(data: &[u8]) -> (r: Result<BlitRequest, DevError>)
    requires
        data@.len() < 8 || data@.len() >= 12,
    ensures
        data@.len() < 8 ==> r == Err::<BlitRequest, DevError>(DevError::InvalidArg),
        data@.len() >= 12 ==> r == Ok::<BlitRequest, DevError>(
            BlitRequest {
                x: (data@[0] * 256 + data@[1]) as u16,
                y: (data@[2] * 256 + data@[3]) as u16,
                w: (data@[4] * 256 + data@[5]) as u16,
                h: (data@[6] * 256 + data@[7]) as u16,
                addr: crate::wire::be32(data@, 8) as u32,
            },
        ),
{
    if data.len() < 8 {
        return Err(DevError::InvalidArg);
    }
    let x = (data[0] as u16) * 256 + data[1] as u16;
    let y = (data[2] as u16) * 256 + data[3] as u16;
    let w = (data[4] as u16) * 256 + data[5] as u16;
    let h = (data[6] as u16) * 256 + data[7] as u16;
    let addr = (data[8] as u32) * 16777216 + (data[9] as u32) * 65536 + (data[10] as u32) * 256
        + data[11] as u32;
    Ok(BlitRequest { x, y, w, h, addr })
}

impl St7789vwLcd {
    /// The name the driver registers under.
    pub fn compatible(&self) -> (s: &'static str)
        ensures
            s@ == "ST7789VW LCD"@,
    {
        "ST7789VW LCD"
    }

    /// Plain device reads are refused.
    pub fn device_read(&self, _data: &[u8]) -> (r: Result<usize, DevError>)
        ensures
            r == Err::<usize, DevError>(DevError::Unsupported),
    {
        Err(DevError::Unsupported)
    }

    pub fn new(dc_pin: usize, rst_pin: usize, cs_pin: usize) -> (s: Self)
        ensures
            s.inner.dc_pin == Pin(dc_pin),
            s.inner.rst_pin == Pin(rst_pin),
            s.inner.cs_pin == Pin(cs_pin),
            s.inner.x_offset == 0,
            s.inner.y_offset == 0,
    {
        St7789vwLcd { inner: St7789vwLcdInner::new(dc_pin, rst_pin, cs_pin) }
    }
}

} // verus!
