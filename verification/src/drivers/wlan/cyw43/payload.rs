use vstd::prelude::*;
use crate::bits::lemma_flag_constants;

use super::ioctl::{iovar_bytes, le32_seq, IOCTL_PAYLOAD_OFFSET};
use super::{Cyw43Inner, Cyw43Model, SPID_BUF_LEN};
use crate::error::DevError;
use vstd::string::StringSliceAdditionalSpecFns;
use crate::wire::{fill_bytes, get_le32, le32, le32_bytes, overwrite, put_bytes, put_le32};

verus! {

/// Writes `vals` little-endian from position `i` on.
fn put_le32_all(b: &mut Vec<u8>, i: usize, vals: &[u32])
    requires
        i + 4 * vals@.len() <= old(b).len(),
    ensures
        final(b)@ == overwrite(old(b)@, i as int, le32_seq(vals@)),
{
    let mut k: usize = 0;
    proof {
        assert(vals@.take(0) =~= Seq::<u32>::empty());
        assert(b@ =~= overwrite(old(b)@, i as int, le32_seq(vals@.take(0))));
    }
    while k < vals.len()
        invariant
            i + 4 * vals@.len() <= b.len(),
            b.len() == old(b).len(),
            k <= vals@.len(),
            le32_seq(vals@.take(k as int)).len() == 4 * k,
            b@ == overwrite(old(b)@, i as int, le32_seq(vals@.take(k as int))),
        decreases vals@.len() - k,
    {
        let ghost before = b@;
        put_le32(b, i + 4 * k, vals[k]);
        proof {
            let t = vals@.take(k + 1);
            assert(t.drop_last() =~= vals@.take(k as int));
            assert(t.last() == vals@[k as int]);
            assert(le32_seq(t) == le32_seq(vals@.take(k as int)) + le32_bytes(vals@[k as int]));
            assert(b@ =~= overwrite(old(b)@, i as int, le32_seq(t)));
        }
        k = k + 1;
    }
    assert(vals@.take(vals@.len() as int) =~= vals@);
}

/// The iovar payload of the name `var` followed by `data`.
pub open spec fn iovar_payload(var: &str, data: Seq<u8>) -> Seq<u8> {
    iovar_bytes(var.spec_bytes(), data)
}

/// The `set_event_msgs` payload: the name `bsscfg:event_msgs`, bss index 0,
/// and an event mask enabling everything but events 19, 20, 40, 44, 54
/// and 71.
pub open spec fn event_msgs_payload() -> Seq<u8> {
    seq![
        98u8, 115, 115, 99, 102, 103, 58, 101, 118, 101, 110, 116, 95, 109, 115, 103, 115, 0,
        0, 0, 0, 0,
        0xff, 0xff, 0xe7, 0xff, 0xff, 0xee, 0xbf, 0xff, 0x7f, 0xff, 0xff, 0xff, 0xff, 0xff,
        0xff, 0xff, 0xff, 0xff, 0xff,
    ]
}

/// The `country` iovar payload for a packed country word (two letters in
/// the low half, revision in the high half, revision 0 meaning "any").
pub open spec fn country_payload(country: u32) -> Seq<u8> {
    let rev = if country / 65536 == 0 { u32::MAX } else { (country / 65536) as u32 };
    seq![99u8, 111, 117, 110, 116, 114, 121, 0] + le32_bytes((country % 65536) as u32)
        + le32_bytes(rev) + le32_bytes((country % 65536) as u32)
}

/// The `escan` iovar payload: version 1, start action, any SSID, broadcast
/// BSSID, any BSS type, active scan, firmware-default timings, all channels.
pub open spec fn escan_payload() -> Seq<u8> {
    seq![101u8, 115, 99, 97, 110, 0] + le32_bytes(1) + seq![1u8, 0, 0, 0] + le32_bytes(0)
        + Seq::new(32, |i: int| 0u8) + seq![0xffu8, 0xff, 0xff, 0xff, 0xff, 0xff, 2, 0]
        + le32_bytes(0xffff_ffff) + le32_bytes(0xffff_ffff) + le32_bytes(0xffff_ffff)
        + le32_bytes(0xffff_ffff) + le32_bytes(0) + seq![0u8, 0, 0, 0]
}

/// The `set_ssid` payload: the SSID length, then the SSID, zero padded to
/// 32 bytes.
pub open spec fn ssid_payload(ssid: Seq<u8>) -> Seq<u8> {
    le32_bytes(ssid.len() as u32) + ssid + Seq::new((32 - ssid.len()) as nat, |i: int| 0u8)
}

/// Number of GPIO lines the radio chip drives.
pub const CYW43_WL_GPIO_COUNT: usize = 3;

/// The two words of a `gpioout` iovar that drives radio GPIO `pin`: the
/// pin's mask, then its new level under that mask. Pins past the chip's
/// lines are refused.
pub fn gpio_out_words(pin: usize, level: bool) -> (r: Result<(u32, u32), DevError>)
    ensures
        pin >= CYW43_WL_GPIO_COUNT ==> r == Err::<(u32, u32), DevError>(DevError::InvalidArg),
        pin < CYW43_WL_GPIO_COUNT ==> r == Ok::<(u32, u32), DevError>(
            (1u32 << (pin as u32), if level { 1u32 << (pin as u32) } else { 0u32 }),
        ),
{
    if pin >= CYW43_WL_GPIO_COUNT {
        return Err(DevError::InvalidArg);
    }
    let mask: u32 = 1u32 << (pin as u32);
    let value: u32 = if level {
        mask
    } else {
        0
    };
    Ok((mask, value))
}

impl Cyw43Inner {
    /// Places the payload of an iovar write of 32-bit values and gives its length.
    pub fn iovar_u32s_payload(&mut self, var: &str, vals: &[u32]) -> (n: usize)
        requires
            old(self).wf(),
            IOCTL_PAYLOAD_OFFSET + var.spec_bytes().len() + 1 + 4 * vals@.len() <= SPID_BUF_LEN,
        ensures
            final(self).wf(),
            n == var.spec_bytes().len() + 1 + 4 * vals@.len(),
            final(self)@ == (Cyw43Model {
                buf: overwrite(old(self)@.buf, IOCTL_PAYLOAD_OFFSET as int, iovar_payload(var, le32_seq(vals@))),
                ..old(self)@
            }),
    {
        let name = var.as_bytes();
        let payload_len = name.len() + 1 + vals.len() * 4;
        put_bytes(&mut self.spid_buf, IOCTL_PAYLOAD_OFFSET, name);
        let zero: [u8; 1] = [0];
        put_bytes(&mut self.spid_buf, IOCTL_PAYLOAD_OFFSET + name.len(), zero.as_slice());
        let ghost mid = self@.buf;
        put_le32_all(&mut self.spid_buf, IOCTL_PAYLOAD_OFFSET + name.len() + 1, vals);
        proof {
            crate::drivers::wlan::cyw43::ioctl::lemma_le32_seq_len(vals@);
            let p = iovar_payload(var, le32_seq(vals@));
            assert(self@.buf =~= overwrite(old(self)@.buf, IOCTL_PAYLOAD_OFFSET as int, p));
        }
        payload_len
    }

    /// Places the payload of an iovar write of raw bytes and gives its length.
    pub fn iovar_n_payload(&mut self, var: &str, data: &[u8]) -> (n: usize)
        requires
            old(self).wf(),
            IOCTL_PAYLOAD_OFFSET + var.spec_bytes().len() + 1 + data@.len() <= SPID_BUF_LEN,
        ensures
            final(self).wf(),
            n == var.spec_bytes().len() + 1 + data@.len(),
            final(self)@ == (Cyw43Model {
                buf: overwrite(old(self)@.buf, IOCTL_PAYLOAD_OFFSET as int, iovar_payload(var, data@)),
                ..old(self)@
            }),
    {
        let name = var.as_bytes();
        let payload_len = name.len() + 1 + data.len();
        put_bytes(&mut self.spid_buf, IOCTL_PAYLOAD_OFFSET, name);
        let zero: [u8; 1] = [0];
        put_bytes(&mut self.spid_buf, IOCTL_PAYLOAD_OFFSET + name.len(), zero.as_slice());
        put_bytes(&mut self.spid_buf, IOCTL_PAYLOAD_OFFSET + name.len() + 1, data);
        proof {
            let p = iovar_payload(var, data@);
            assert(self@.buf =~= overwrite(old(self)@.buf, IOCTL_PAYLOAD_OFFSET as int, p));
        }
        payload_len
    }

    /// Places a 32-bit ioctl argument.
    pub fn ioctl_u32_payload(&mut self, val: u32) -> (n: usize)
        requires
            old(self).wf(),
        ensures
            final(self).wf(),
            n == 4,
            final(self)@ == (Cyw43Model {
                buf: overwrite(old(self)@.buf, IOCTL_PAYLOAD_OFFSET as int, le32_bytes(val)),
                ..old(self)@
            }),
    {
        put_le32(&mut self.spid_buf, IOCTL_PAYLOAD_OFFSET, val);
        4
    }

    /// Clears the payload room of a 32-bit ioctl query.
    pub fn ioctl_u32_query_payload(&mut self) -> (n: usize)
        requires
            old(self).wf(),
        ensures
            final(self).wf(),
            n == 4,
            final(self)@ == (Cyw43Model {
                buf: overwrite(old(self)@.buf, IOCTL_PAYLOAD_OFFSET as int, Seq::new(4, |i: int| 0u8)),
                ..old(self)@
            }),
    {
        fill_bytes(&mut self.spid_buf, IOCTL_PAYLOAD_OFFSET, 4, 0);
        4
    }

    /// The 32-bit answer of an ioctl query.
    pub fn ioctl_u32_answer(&self) -> (v: u32)
        requires
            self.wf(),
        ensures
            v == le32(self@.buf, IOCTL_PAYLOAD_OFFSET as int),
    {
        get_le32(&self.spid_buf, IOCTL_PAYLOAD_OFFSET)
    }

    /// Places the event-mask payload and gives its length.
    pub fn event_msgs_payload(&mut self) -> (n: usize)
        requires
            old(self).wf(),
        ensures
            final(self).wf(),
            n == 41,
            final(self)@ == (Cyw43Model {
                buf: overwrite(old(self)@.buf, IOCTL_PAYLOAD_OFFSET as int, event_msgs_payload()),
                ..old(self)@
            }),
    {
        let mut mask: [u8; 41] = [
            98, 115, 115, 99, 102, 103, 58, 101, 118, 101, 110, 116, 95, 109, 115, 103, 115, 0,
            0, 0, 0, 0,
            0xff, 0xff, 0xff, 0xff, 0xff, 0xff, 0xff, 0xff, 0xff, 0xff, 0xff, 0xff, 0xff, 0xff,
            0xff, 0xff, 0xff, 0xff, 0xff,
        ];
        clear_event(&mut mask, 19);
        clear_event(&mut mask, 20);
        clear_event(&mut mask, 40);
        clear_event(&mut mask, 44);
        clear_event(&mut mask, 54);
        clear_event(&mut mask, 71);
        proof {
            lemma_flag_constants();
        }
        assert(mask@ =~= event_msgs_payload());
        put_bytes(&mut self.spid_buf, IOCTL_PAYLOAD_OFFSET, mask.as_slice());
        41
    }

    /// Places the `country` payload and gives its length.
    pub fn country_payload(&mut self, country: u32) -> (n: usize)
        requires
            old(self).wf(),
        ensures
            final(self).wf(),
            n == 20,
            final(self)@ == (Cyw43Model {
                buf: overwrite(old(self)@.buf, IOCTL_PAYLOAD_OFFSET as int, country_payload(country)),
                ..old(self)@
            }),
    {
        let name: [u8; 8] = [99, 111, 117, 110, 116, 114, 121, 0];
        put_bytes(&mut self.spid_buf, IOCTL_PAYLOAD_OFFSET, name.as_slice());
        put_le32(&mut self.spid_buf, IOCTL_PAYLOAD_OFFSET + 8, country % 65536);
        let rev = if country / 65536 == 0 {
            u32::MAX
        } else {
            country / 65536
        };
        put_le32(&mut self.spid_buf, IOCTL_PAYLOAD_OFFSET + 12, rev);
        put_le32(&mut self.spid_buf, IOCTL_PAYLOAD_OFFSET + 16, country % 65536);
        assert(self@.buf =~= overwrite(old(self)@.buf, IOCTL_PAYLOAD_OFFSET as int, country_payload(country)));
        20
    }

    /// A scan request: none while a scan is running (nothing changes), else
    /// the `escan` payload placed and its length.
    pub fn escan_request(&mut self) -> (r: Option<usize>)
        requires
            old(self).wf(),
        ensures
            final(self).wf(),
            old(self)@.scan_in_progress ==> r is None && final(self)@ == old(self)@,
            !old(self)@.scan_in_progress ==> r == Some(82usize) && final(self)@ == (Cyw43Model {
                buf: overwrite(old(self)@.buf, IOCTL_PAYLOAD_OFFSET as int, escan_payload()),
                ..old(self)@
            }),
    {
        if self.scan_in_progress {
            return None;
        }
        Some(self.escan_payload())
    }

    /// Places the `escan` payload and gives its length.
    pub fn escan_payload(&mut self) -> (n: usize)
        requires
            old(self).wf(),
        ensures
            final(self).wf(),
            n == 82,
            final(self)@ == (Cyw43Model {
                buf: overwrite(old(self)@.buf, IOCTL_PAYLOAD_OFFSET as int, escan_payload()),
                ..old(self)@
            }),
    {
        let p: [u8; 82] = [
            101, 115, 99, 97, 110, 0,
            1, 0, 0, 0, 1, 0, 0, 0, 0, 0, 0, 0,
            0, 0, 0, 0, 0, 0, 0, 0, 0, 0, 0, 0, 0, 0, 0, 0,
            0, 0, 0, 0, 0, 0, 0, 0, 0, 0, 0, 0, 0, 0, 0, 0,
            0xff, 0xff, 0xff, 0xff, 0xff, 0xff, 2, 0,
            0xff, 0xff, 0xff, 0xff, 0xff, 0xff, 0xff, 0xff, 0xff, 0xff, 0xff, 0xff, 0xff, 0xff,
            0xff, 0xff,
            0, 0, 0, 0, 0, 0, 0, 0,
        ];
        assert(p@ =~= escan_payload());
        put_bytes(&mut self.spid_buf, IOCTL_PAYLOAD_OFFSET, p.as_slice());
        82
    }

    /// Places the `set_ssid` payload; SSIDs longer than 32 bytes are refused.
    pub fn ssid_payload(&mut self, ssid: &str) -> (r: Result<usize, DevError>)
        requires
            old(self).wf(),
        ensures
            final(self).wf(),
            ssid.spec_bytes().len() > 32 ==> r == Err::<usize, DevError>(DevError::InvalidArg)
                && final(self)@ == old(self)@,
            ssid.spec_bytes().len() <= 32 ==> r == Ok::<usize, DevError>(36) && final(self)@ == (
            Cyw43Model {
                buf: overwrite(old(self)@.buf, IOCTL_PAYLOAD_OFFSET as int, ssid_payload(ssid.spec_bytes())),
                ..old(self)@
            }),
    {
        let bytes = ssid.as_bytes();
        let ssid_len = bytes.len();
        if ssid_len > 32 {
            return Err(DevError::InvalidArg);
        }
        fill_bytes(&mut self.spid_buf, IOCTL_PAYLOAD_OFFSET, 36, 0);
        put_le32(&mut self.spid_buf, IOCTL_PAYLOAD_OFFSET, ssid_len as u32);
        put_bytes(&mut self.spid_buf, IOCTL_PAYLOAD_OFFSET + 4, bytes);
        assert(self@.buf =~= overwrite(old(self)@.buf, IOCTL_PAYLOAD_OFFSET as int, ssid_payload(ssid.spec_bytes())));
        Ok(36)
    }
}

/// Clears the mask bit of `event` in an event-mask payload.
fn clear_event(buf: &mut [u8; 41], event: usize)
    requires
        22 + event / 8 < 41,
    ensures
        final(buf)@ == old(buf)@.update(22 + event / 8, old(buf)@[22 + event / 8] & !(1u8 << ((event % 8) as u8))),
{
    let base: usize = 18 + 4;
    let bit = (event % 8) as u8;
    buf[base + event / 8] = buf[base + event / 8] & !(1u8 << bit);
    assert(buf@ =~= old(buf)@.update(22 + event / 8, old(buf)@[22 + event / 8] & !(1u8 << ((event % 8) as u8))));
}

} // verus!
