use vstd::prelude::*;

use crate::drivers::gpio::Pin;
use crate::error::DevError;

pub mod ili9488;
pub mod st7789vw;
pub mod st7796su1;

verus! {

#[derive(Clone, Copy, Debug, PartialEq, Eq, Structural)]
pub enum DisplayRoation {
    Roation0,
    Roation90,
    Roation180,
    Roation270,
}

/// Orientation and panel offset of a display.
#[derive(Clone, Copy, Debug, PartialEq, Eq, Structural)]
pub struct LcdConfig {
    pub ration: DisplayRoation,
    pub x_offset: usize,
    pub y_offset: usize,
}

impl Default for LcdConfig {
    /// Rotated by 90 degrees with the offsets of the 240x135 panel.
    fn default() -> (c: Self)
        ensures
            c == (LcdConfig { ration: DisplayRoation::Roation90, x_offset: 40, y_offset: 53 }),
    {
        LcdConfig { ration: DisplayRoation::Roation90, x_offset: 40, y_offset: 53 }
    }
}

/// A display controller.
pub trait Lcd {
    fn config(&self, config: &LcdConfig) -> Result<(), DevError>;

    fn display_on(&self) -> Result<(), DevError>;

    fn set_window(&self, x0: u16, y0: u16, x1: u16, y1: u16) -> Result<(), DevError>;

    fn flush_buf(&self, buf: &[u8]) -> Result<(), DevError>;
}

/// Whether a transfer carries a command (DC low) or data (DC high).
#[derive(Clone, Copy, Debug, PartialEq, Eq, Structural)]
pub enum Buffertype {
    Data,
    Command,
}

/// One controller command: the command byte, its parameter bytes (sent as
/// a data transfer when there are any) and the pause after it.
pub struct LcdCmd {
    pub cmd: u8,
    pub data: Vec<u8>,
    pub delay_ms: u32,
}

/// The abstract value of a command.
pub open spec fn cmd_view(c: LcdCmd) -> (u8, Seq<u8>, u32) {
    (c.cmd, c.data@, c.delay_ms)
}

/// The abstract value of a command list.
pub open spec fn cmds_view(v: Seq<LcdCmd>) -> Seq<(u8, Seq<u8>, u32)> {
    v.map_values(|c: LcdCmd| cmd_view(c))
}

/// Builds a command.
pub fn lcd_cmd(cmd: u8, data: &[u8], delay_ms: u32) -> (c: LcdCmd)
    ensures
        cmd_view(c) == (cmd, data@, delay_ms),
{
    let mut v: Vec<u8> = Vec::new();
    let mut i: usize = 0;
    while i < data.len()
        invariant
            i <= data@.len(),
            v@ == data@.subrange(0, i as int),
        decreases data@.len() - i,
    {
        v.push(data[i]);
        i = i + 1;
        assert(v@ =~= data@.subrange(0, i as int));
    }
    assert(v@ =~= data@);
    LcdCmd { cmd, data: v, delay_ms }
}

/// The big-endian bytes of a start and an end coordinate.
pub open spec fn range_bytes(s: int, e: int) -> Seq<u8> {
    seq![(s / 256) as u8, (s % 256) as u8, (e / 256) as u8, (e % 256) as u8]
}

/// The commands selecting the drawing window: column range, row range,
/// then memory write.
pub open spec fn window_cmds_spec(xs: int, xe: int, ys: int, ye: int) -> Seq<(u8, Seq<u8>, u32)> {
    seq![(0x2Au8, range_bytes(xs, xe), 0u32), (0x2Bu8, range_bytes(ys, ye), 0u32), (0x2Cu8, Seq::<u8>::empty(), 0u32)]
}

/// A window from `(x0, y0)` to `(x1, y1)` (exclusive) shifted by the panel
/// offset fits the 16-bit coordinates.
pub open spec fn window_fits(x0: u16, y0: u16, x1: u16, y1: u16, xo: int, yo: int) -> bool {
    &&& x1 >= 1 && y1 >= 1
    &&& x0 + xo <= u16::MAX && x1 - 1 + xo <= u16::MAX
    &&& y0 + yo <= u16::MAX && y1 - 1 + yo <= u16::MAX
}

/// The commands selecting a window shifted by the panel offset.
pub fn window_cmds(x0: u16, y0: u16, x1: u16, y1: u16, x_offset: u16, y_offset: u16) -> (v: Vec<LcdCmd>)
    requires
        window_fits(x0, y0, x1, y1, x_offset as int, y_offset as int),
    ensures
        cmds_view(v@) == window_cmds_spec(
            x0 + x_offset,
            x1 - 1 + x_offset,
            y0 + y_offset,
            y1 - 1 + y_offset,
        ),
{
    let xs = x0 + x_offset;
    let xe = x1 - 1 + x_offset;
    let ys = y0 + y_offset;
    let ye = y1 - 1 + y_offset;
    let xb: [u8; 4] = [(xs / 256) as u8, (xs % 256) as u8, (xe / 256) as u8, (xe % 256) as u8];
    let yb: [u8; 4] = [(ys / 256) as u8, (ys % 256) as u8, (ye / 256) as u8, (ye % 256) as u8];
    let empty: [u8; 0] = [];
    let mut v: Vec<LcdCmd> = Vec::new();
    v.push(lcd_cmd(0x2A, xb.as_slice(), 0));
    v.push(lcd_cmd(0x2B, yb.as_slice(), 0));
    v.push(lcd_cmd(0x2C, empty.as_slice(), 0));
    assert(xb@ =~= range_bytes(xs as int, xe as int));
    assert(yb@ =~= range_bytes(ys as int, ye as int));
    assert(empty@ =~= Seq::<u8>::empty());
    assert(cmds_view(v@) =~= window_cmds_spec(xs as int, xe as int, ys as int, ye as int));
    v
}

/// What the panel's pins and bus see, step by step.
pub enum PanelAct {
    /// `pin` driven high or low.
    SetPin { pin: Pin, high: bool },
    /// A pause of `ms` milliseconds.
    Wait { ms: u32 },
    /// `bytes` written on the SPI bus.
    Send { bytes: Seq<u8> },
}

/// One step of driving the panel.
pub enum PanelOp {
    SetPin { pin: Pin, high: bool },
    Wait { ms: u32 },
    Send { bytes: Vec<u8> },
}

/// The abstract value of a step.
pub open spec fn op_view(o: PanelOp) -> PanelAct {
    match o {
        PanelOp::SetPin { pin, high } => PanelAct::SetPin { pin, high },
        PanelOp::Wait { ms } => PanelAct::Wait { ms },
        PanelOp::Send { bytes } => PanelAct::Send { bytes: bytes@ },
    }
}

/// The abstract value of a list of steps.
pub open spec fn ops_view(v: Seq<PanelOp>) -> Seq<PanelAct> {
    v.map_values(|o: PanelOp| op_view(o))
}

/// One transfer: DC low for a command or high for data, chip select low,
/// the bytes, chip select high.
pub open spec fn send_acts(dc: Pin, cs: Pin, is_data: bool, bytes: Seq<u8>) -> Seq<PanelAct> {
    seq![
        PanelAct::SetPin { pin: dc, high: is_data },
        PanelAct::SetPin { pin: cs, high: false },
        PanelAct::Send { bytes },
        PanelAct::SetPin { pin: cs, high: true },
    ]
}

/// One command: the command byte as a command transfer, its parameters (if
/// any) as a data transfer, then its pause (if any).
pub open spec fn cmd_acts(dc: Pin, cs: Pin, c: (u8, Seq<u8>, u32)) -> Seq<PanelAct> {
    send_acts(dc, cs, false, seq![c.0]) + (if c.1.len() > 0 {
        send_acts(dc, cs, true, c.1)
    } else {
        Seq::empty()
    }) + (if c.2 > 0 {
        seq![PanelAct::Wait { ms: c.2 }]
    } else {
        Seq::empty()
    })
}

/// A command list, one command after the other.
pub open spec fn cmds_acts(dc: Pin, cs: Pin, s: Seq<(u8, Seq<u8>, u32)>) -> Seq<PanelAct>
    decreases s.len(),
{
    if s.len() == 0 {
        Seq::empty()
    } else {
        cmds_acts(dc, cs, s.drop_last()) + cmd_acts(dc, cs, s.last())
    }
}

/// The hard reset: reset pin low, 10 ms, reset pin high, 120 ms.
pub open spec fn hard_reset_acts(rst: Pin) -> Seq<PanelAct> {
    seq![
        PanelAct::SetPin { pin: rst, high: false },
        PanelAct::Wait { ms: 10 },
        PanelAct::SetPin { pin: rst, high: true },
        PanelAct::Wait { ms: 120 },
    ]
}

/// A copy of `data`.
fn copy_bytes(data: &[u8]) -> (v: Vec<u8>)
    ensures
        v@ == data@,
{
    let mut v: Vec<u8> = Vec::new();
    let mut i: usize = 0;
    while i < data.len()
        invariant
            i <= data@.len(),
            v@ == data@.subrange(0, i as int),
        decreases data@.len() - i,
    {
        v.push(data[i]);
        i = i + 1;
        assert(v@ =~= data@.subrange(0, i as int));
    }
    assert(v@ =~= data@);
    v
}

/// Appends one step.
fn push_op(v: &mut Vec<PanelOp>, o: PanelOp)
    ensures
        ops_view(final(v)@) == ops_view(old(v)@).push(op_view(o)),
{
    v.push(o);
    assert(ops_view(v@) =~= ops_view(old(v)@).push(op_view(o)));
}

/// Appends one transfer.
fn push_send(v: &mut Vec<PanelOp>, dc: Pin, cs: Pin, is_data: bool, bytes: &[u8])
    ensures
        ops_view(final(v)@) == ops_view(old(v)@) + send_acts(dc, cs, is_data, bytes@),
{
    push_op(v, PanelOp::SetPin { pin: dc, high: is_data });
    push_op(v, PanelOp::SetPin { pin: cs, high: false });
    push_op(v, PanelOp::Send { bytes: copy_bytes(bytes) });
    push_op(v, PanelOp::SetPin { pin: cs, high: true });
    assert(ops_view(v@) =~= ops_view(old(v)@) + send_acts(dc, cs, is_data, bytes@));
}

/// Appends one command.
fn push_cmd(v: &mut Vec<PanelOp>, dc: Pin, cs: Pin, c: &LcdCmd)
    ensures
        ops_view(final(v)@) == ops_view(old(v)@) + cmd_acts(dc, cs, cmd_view(*c)),
{
    let b: [u8; 1] = [c.cmd];
    assert(b@ =~= seq![c.cmd]);
    push_send(v, dc, cs, false, b.as_slice());
    if c.data.len() > 0 {
        push_send(v, dc, cs, true, c.data.as_slice());
    }
    if c.delay_ms > 0 {
        push_op(v, PanelOp::Wait { ms: c.delay_ms });
    }
    assert(ops_view(v@) =~= ops_view(old(v)@) + cmd_acts(dc, cs, cmd_view(*c)));
}

/// Appends a command list.
fn push_cmds(v: &mut Vec<PanelOp>, dc: Pin, cs: Pin, cmds: &[LcdCmd])
    ensures
        ops_view(final(v)@) == ops_view(old(v)@) + cmds_acts(dc, cs, cmds_view(cmds@)),
{
    let ghost pre = ops_view(v@);
    let mut i: usize = 0;
    assert(cmds_view(cmds@).take(0) =~= Seq::<(u8, Seq<u8>, u32)>::empty());
    assert(ops_view(v@) =~= pre + cmds_acts(dc, cs, cmds_view(cmds@).take(0)));
    while i < cmds.len()
        invariant
            i <= cmds@.len(),
            ops_view(v@) == pre + cmds_acts(dc, cs, cmds_view(cmds@).take(i as int)),
        decreases cmds@.len() - i,
    {
        push_cmd(v, dc, cs, &cmds[i]);
        proof {
            let t = cmds_view(cmds@).take(i + 1);
            assert(t.drop_last() =~= cmds_view(cmds@).take(i as int));
            assert(t.last() == cmd_view(cmds@[i as int]));
            assert(ops_view(v@) =~= pre + cmds_acts(dc, cs, t));
        }
        i = i + 1;
    }
    assert(cmds_view(cmds@).take(cmds@.len() as int) =~= cmds_view(cmds@));
}

/// The steps that send a command list with data/command pin `dc` and chip
/// select `cs`.
pub fn cmds_ops(dc: Pin, cs: Pin, cmds: &[LcdCmd]) -> (v: Vec<PanelOp>)
    ensures
        ops_view(v@) == cmds_acts(dc, cs, cmds_view(cmds@)),
{
    let mut v: Vec<PanelOp> = Vec::new();
    assert(ops_view(v@) =~= Seq::<PanelAct>::empty());
    push_cmds(&mut v, dc, cs, cmds);
    assert(ops_view(v@) =~= cmds_acts(dc, cs, cmds_view(cmds@)));
    v
}

/// The steps that send `bytes` as data.
pub fn data_ops(dc: Pin, cs: Pin, bytes: &[u8]) -> (v: Vec<PanelOp>)
    ensures
        ops_view(v@) == send_acts(dc, cs, true, bytes@),
{
    let mut v: Vec<PanelOp> = Vec::new();
    assert(ops_view(v@) =~= Seq::<PanelAct>::empty());
    push_send(&mut v, dc, cs, true, bytes);
    assert(ops_view(v@) =~= send_acts(dc, cs, true, bytes@));
    v
}

/// The steps of a hard reset on reset pin `rst`.
pub fn hard_reset_ops(rst: Pin) -> (v: Vec<PanelOp>)
    ensures
        ops_view(v@) == hard_reset_acts(rst),
{
    let mut v: Vec<PanelOp> = Vec::new();
    push_op(&mut v, PanelOp::SetPin { pin: rst, high: false });
    push_op(&mut v, PanelOp::Wait { ms: 10 });
    push_op(&mut v, PanelOp::SetPin { pin: rst, high: true });
    push_op(&mut v, PanelOp::Wait { ms: 120 });
    assert(ops_view(v@) =~= hard_reset_acts(rst));
    v
}

/// The software reset command, with its 150 ms pause.
pub fn soft_reset_cmd() -> (c: LcdCmd)
    ensures
        cmd_view(c) == (0x01u8, Seq::<u8>::empty(), 150u32),
{
    let empty: [u8; 0] = [];
    assert(empty@ =~= Seq::<u8>::empty());
    lcd_cmd(0x01, empty.as_slice(), 150)
}

/// The display-on command, with its 20 ms pause.
pub fn display_on_cmd() -> (c: LcdCmd)
    ensures
        cmd_view(c) == (0x29u8, Seq::<u8>::empty(), 20u32),
{
    let empty: [u8; 0] = [];
    assert(empty@ =~= Seq::<u8>::empty());
    lcd_cmd(0x29, empty.as_slice(), 20)
}

/// The bytes of a frame flush: the buffer cut to two bytes per pixel of a
/// `w` x `h` window.
pub fn flush_len(buf_len: usize, w: u16, h: u16) -> (n: usize)
    requires
        w * h * 2 <= usize::MAX,
    ensures
        n == (if buf_len > w * h * 2 { w * h * 2 } else { buf_len as int }),
{
    let px = (w as usize) * (h as usize) * 2;
    if buf_len > px {
        px
    } else {
        buf_len
    }
}

} // verus!
