use vstd::prelude::*;
use crate::bits::lemma_u8_bits;

use super::{empty_point, TouchPoint, TouchReport};
use crate::error::DevError;
use crate::wire::le16;

verus! {

broadcast use vstd::array::group_array_axioms;

/// Most points the controller reports.
pub const GT911_MAX_POINTS: usize = 5;
/// Bytes per point record.
pub const POINT_SIZE: usize = 8;
/// Status register: ready flag (bit 7) and point count (bits 3..0).
pub const REG_STATUS: u16 = 0x814E;
/// First point record.
pub const REG_POINT1: u16 = 0x814F;

/// What the status register asks for.
#[derive(Clone, Copy, Debug, PartialEq, Eq, Structural)]
pub enum Gt911Status {
    /// No new reading.
    NotReady,
    /// A reading without points: clear the status and report nothing.
    NoPoints,
    /// A reading with this many points (at most five): read them, then clear
    /// the status.
    Points(usize),
}

/// The decision on a status byte.
pub open spec fn gt911_status_spec(status: u8) -> Gt911Status {
    let count = status % 16;
    if status < 128 {
        Gt911Status::NotReady
    } else if count == 0 {
        Gt911Status::NoPoints
    } else {
        Gt911Status::Points(if count < 5 { count as usize } else { 5 })
    }
}

/// What a status byte announces: nothing before the ready flag (bit 7) is
/// set; then as many points as its low four bits count, but never more
/// than the five records the controller has, and no point read when the
/// count is zero.
pub proof fn lemma_status_point_count(status: u8)
    ensures
        status < 128 ==> gt911_status_spec(status) == Gt911Status::NotReady,
        status >= 128 && status % 16 == 0 ==> gt911_status_spec(status) == Gt911Status::NoPoints,
        status >= 128 && 1 <= status % 16 <= GT911_MAX_POINTS ==> gt911_status_spec(status)
            == Gt911Status::Points((status % 16) as usize),
        status >= 128 && status % 16 > GT911_MAX_POINTS ==> gt911_status_spec(status)
            == Gt911Status::Points(GT911_MAX_POINTS),
        gt911_status_spec(status) matches Gt911Status::Points(n) ==> 1 <= n <= GT911_MAX_POINTS && n
            <= status % 16,
{
}

/// Point `i` of a block of point records.
pub open spec fn point_spec(buf: Seq<u8>, i: int) -> TouchPoint {
    TouchPoint {
        id: buf[8 * i],
        x: le16(buf, 8 * i + 1) as u16,
        y: le16(buf, 8 * i + 3) as u16,
        size: le16(buf, 8 * i + 5) as u16,
    }
}

/// The touch controller driver's state: its bus address.
pub struct Gt911Inner {
    pub addr: u8,
}

/// A GT911 touch controller.
pub struct Gt911 {
    pub inner: Gt911Inner,
}

impl Gt911Inner {
    pub fn new(addr: u8) -> (s: Self)
        ensures
            s.addr == addr,
    {
        Gt911Inner { addr }
    }

    /// The bytes addressing a register (big-endian) before a read.
    pub fn read_reg_request(&self, reg: u16) -> (v: Vec<u8>)
        ensures
            v@ == seq![(reg / 256) as u8, (reg % 256) as u8],
    {
        let mut v: Vec<u8> = Vec::new();
        v.push((reg / 256) as u8);
        v.push((reg % 256) as u8);
        assert(v@ =~= seq![(reg / 256) as u8, (reg % 256) as u8]);
        v
    }

    /// The bytes of a register write: the register (big-endian), then the
    /// data; writes of more than six data bytes are refused.
    pub fn write_reg_frame(&self, reg: u16, data: &[u8]) -> (r: Result<Vec<u8>, DevError>)
        requires
            data@.len() <= usize::MAX - 2,
        ensures
            data@.len() + 2 > 8 ==> r == Err::<Vec<u8>, DevError>(DevError::InvalidArg),
            data@.len() + 2 <= 8 ==> r is Ok && r->Ok_0@ == seq![(reg / 256) as u8, (reg % 256) as u8]
                + data@,
    {
        if data.len() + 2 > 8 {
            return Err(DevError::InvalidArg);
        }
        let mut v = self.read_reg_request(reg);
        let mut i: usize = 0;
        while i < data.len()
            invariant
                i <= data@.len(),
                v@ == seq![(reg / 256) as u8, (reg % 256) as u8] + data@.subrange(0, i as int),
            decreases data@.len() - i,
        {
            v.push(data[i]);
            i = i + 1;
            assert(v@ =~= seq![(reg / 256) as u8, (reg % 256) as u8] + data@.subrange(0, i as int));
        }
        assert(data@.subrange(0, i as int) =~= data@);
        Ok(v)
    }

    /// The write that clears the status register.
    pub fn clear_status(&self) -> (v: Vec<u8>)
        ensures
            v@ == seq![0x81u8, 0x4Eu8, 0u8],
    {
        let z: [u8; 1] = [0];
        let r = self.write_reg_frame(REG_STATUS, z.as_slice());
        match r {
            Ok(v) => {
                assert(v@ =~= seq![0x81u8, 0x4Eu8, 0u8]);
                v
            },
            Err(_) => {
                assert(false);
                Vec::new()
            },
        }
    }

    /// Reads the status byte: ready flag in bit 7, point count in bits 3..0,
    /// the count capped at five.
    pub fn status(&self, status: u8) -> (s: Gt911Status)
        ensures
            s == gt911_status_spec(status),
    {
        let ready = status & 0x80;
        let count = (status & 0x0f) as usize;
        proof {
            lemma_u8_bits(status);
        }
        if ready == 0 {
            return Gt911Status::NotReady;
        }
        if count == 0 {
            return Gt911Status::NoPoints;
        }
        let count = if count < GT911_MAX_POINTS {
            count
        } else {
            GT911_MAX_POINTS
        };
        Gt911Status::Points(count)
    }

    /// Takes apart `count` point records: id, then x, y and size
    /// little-endian; the other points of the report are empty.
    pub fn decode_points(&self, buf: &[u8], count: usize) -> (r: TouchReport)
        requires
            1 <= count <= GT911_MAX_POINTS,
            buf@.len() >= count * POINT_SIZE,
        ensures
            r.count == count,
            forall|i: int| 0 <= i < count ==> #[trigger] r.points@[i] == point_spec(buf@, i),
            forall|i: int| count <= i < 5 ==> #[trigger] r.points@[i] == empty_point(),
    {
        let mut points = [TouchPoint::empty(); 5];
        let mut i: usize = 0;
        while i < count
            invariant
                count <= 5,
                i <= count,
                buf@.len() >= count * 8,
                forall|k: int| 0 <= k < i ==> #[trigger] points@[k] == point_spec(buf@, k),
                forall|k: int| i <= k < 5 ==> #[trigger] points@[k] == empty_point(),
            decreases count - i,
        {
            let base = i * POINT_SIZE;
            let p = TouchPoint {
                id: buf[base],
                x: buf[base + 1] as u16 + (buf[base + 2] as u16) * 256,
                y: buf[base + 3] as u16 + (buf[base + 4] as u16) * 256,
                size: buf[base + 5] as u16 + (buf[base + 6] as u16) * 256,
            };
            points[i] = p;
            i = i + 1;
        }
        TouchReport { count, points }
    }
}

impl Gt911 {
    /// The name the driver registers under.
    pub fn compatible(&self) -> (s: &'static str)
        ensures
            s@ == "GT911 Touchpanel"@,
    {
        "GT911 Touchpanel"
    }

    /// Bringing the touch panel up needs nothing.
    pub fn init(&self) -> (r: Result<(), DevError>)
        ensures
            r == Ok::<(), DevError>(()),
    {
        Ok(())
    }

    /// The panel is read through its touch reports, not as a plain device.
    pub fn device_read(&self, _data: &[u8]) -> (r: Result<usize, DevError>)
        ensures
            r == Err::<usize, DevError>(DevError::Unsupported),
    {
        Err(DevError::Unsupported)
    }

    /// Plain device writes are refused.
    pub fn device_write(&self, _data: &[u8]) -> (r: Result<usize, DevError>)
        ensures
            r == Err::<usize, DevError>(DevError::Unsupported),
    {
        Err(DevError::Unsupported)
    }

    pub fn new(addr: u8) -> (s: Self)
        ensures
            s.inner.addr == addr,
    {
        Gt911 { inner: Gt911Inner::new(addr) }
    }
}

} // verus!
