use vstd::prelude::*;

use super::scan_list::{scan_list_get, scan_list_items, scan_list_len, scan_list_push};
use super::sdpcm::{Interface, SdpcmPacket};
use super::{
    Cyw43Inner, Cyw43Model, PendingBuf, PendingIoctlResp, ScanResult, WifiState, SPID_BUF_LEN,
    same_bss, scans_distinct,
};
use crate::error::DevError;

verus! {

broadcast use vstd::array::group_array_axioms;

/// Offset of the event record inside an async-event payload.
pub const EVENT_OFFSET_IN_PAYLOAD: usize = 32;

/// Size of the event record (with its embedded escan result) as laid out
/// by the firmware.
pub const ASYNC_EVENT_SIZE: usize = 140;

/// Event numbers.
pub const EVENT_SET_SSID: u32 = 0;
pub const EVENT_DISASSOC: u32 = 11;
pub const EVENT_ESCAN_RESULT: u32 = 69;

/// Event status codes.
pub const STATUS_SUCCESS: u32 = 0;
pub const STATUS_PARTIAL: u32 = 8;

/// Number of event-record bytes copied out of a payload of `len` bytes.
pub open spec fn event_copy_len(len: int) -> int {
    if len - 32 < 140 { len - 32 } else { 140 }
}

/// Byte `i` of the event record: copied from the payload where the payload
/// reaches that far, zero beyond.
pub open spec fn ev_byte(buf: Seq<u8>, offset: int, len: int, i: int) -> u8 {
    if i < event_copy_len(len) { buf[offset + 32 + i] } else { 0 }
}

pub open spec fn ev_be32(buf: Seq<u8>, offset: int, len: int, i: int) -> int {
    ev_byte(buf, offset, len, i) * 16777216 + ev_byte(buf, offset, len, i + 1) * 65536
        + ev_byte(buf, offset, len, i + 2) * 256 + ev_byte(buf, offset, len, i + 3)
}

pub open spec fn ev_le16(buf: Seq<u8>, offset: int, len: int, i: int) -> int {
    ev_byte(buf, offset, len, i) + ev_byte(buf, offset, len, i + 1) * 256
}

/// Event type of the record.
pub open spec fn ev_type(buf: Seq<u8>, offset: int, len: int) -> int {
    ev_be32(buf, offset, len, 4)
}

/// Event status of the record.
pub open spec fn ev_status(buf: Seq<u8>, offset: int, len: int) -> int {
    ev_be32(buf, offset, len, 8)
}

/// The payload of an async event can be read without leaving the buffer.
pub open spec fn event_readable(offset: int, len: int) -> bool {
    len < 48 || offset + 32 + event_copy_len(len) <= SPID_BUF_LEN
}

/// `r` is the scan result carried by the escan event record.
pub open spec fn is_parsed_scan(r: ScanResult, buf: Seq<u8>, offset: int, len: int) -> bool {
    let raw_len = ev_byte(buf, offset, len, 78) as int;
    let n = if raw_len < 32 { raw_len } else { 32 };
    &&& r.ssid_len == n
    &&& forall|j: int|
        0 <= j < 32 ==> #[trigger] r.ssid@[j] == (if j < n {
            ev_byte(buf, offset, len, 79 + j)
        } else {
            0u8
        })
    &&& forall|j: int| 0 <= j < 6 ==> #[trigger] r.bssid@[j] == ev_byte(buf, offset, len, 68 + j)
    &&& r.channel == ev_le16(buf, offset, len, 132) % 256
    &&& r.rssi == crate::wire::as_i16(ev_le16(buf, offset, len, 138))
}

/// The scan result carried by the escan event record.
pub open spec fn parsed_scan(buf: Seq<u8>, offset: int, len: int) -> ScanResult {
    choose|r: ScanResult| is_parsed_scan(r, buf, offset, len)
}

/// Some listed result names the same access point and channel as `r`.
pub open spec fn has_bss(s: Seq<ScanResult>, r: ScanResult) -> bool {
    exists|i: int| 0 <= i < s.len() && same_bss(s[i], r)
}

/// The list after a reported access point is offered to it: it is appended
/// unless already listed or the list is full.
pub open spec fn scan_add_spec(s: Seq<ScanResult>, r: ScanResult) -> Seq<ScanResult> {
    if has_bss(s, r) || s.len() >= 32 {
        s
    } else {
        s.push(r)
    }
}

/// The driver state after the async event of `len` bytes at `offset`.
pub open spec fn async_event_spec(m: Cyw43Model, offset: int, len: int) -> Cyw43Model {
    let et = ev_type(m.buf, offset, len);
    let st = ev_status(m.buf, offset, len);
    if len < 48 {
        m
    } else if et == EVENT_ESCAN_RESULT {
        if st == STATUS_PARTIAL {
            Cyw43Model { scans: scan_add_spec(m.scans, parsed_scan(m.buf, offset, len)), ..m }
        } else if st == STATUS_SUCCESS {
            Cyw43Model { scan_done: true, scan_in_progress: false, ..m }
        } else {
            m
        }
    } else if et == EVENT_SET_SSID {
        Cyw43Model {
            state: if st == 0 {
                WifiState::Connected
            } else {
                WifiState::ConnectFailed
            },
            ..m
        }
    } else if et == EVENT_DISASSOC {
        Cyw43Model { state: WifiState::Down, ..m }
    } else {
        m
    }
}

/// A parsed scan result is determined by the event record.
proof fn lemma_parsed_scan_unique(r: ScanResult, buf: Seq<u8>, offset: int, len: int)
    requires
        is_parsed_scan(r, buf, offset, len),
    ensures
        parsed_scan(buf, offset, len) == r,
{
    let p = parsed_scan(buf, offset, len);
    assert(is_parsed_scan(p, buf, offset, len));
    assert(p.ssid =~= r.ssid);
    assert(p.bssid =~= r.bssid);
}

/// Offering an access point to a list without repeats keeps it without repeats.
pub proof fn lemma_scan_add_distinct(s: Seq<ScanResult>, r: ScanResult)
    requires
        scans_distinct(s),
    ensures
        scans_distinct(scan_add_spec(s, r)),
        scan_add_spec(s, r).len() <= s.len() + 1,
{
    if !(has_bss(s, r) || s.len() >= 32) {
        let t = s.push(r);
        assert forall|i: int, j: int| 0 <= i < j < t.len() implies !same_bss(
            #[trigger] t[i],
            #[trigger] t[j],
        ) by {
            if j == s.len() {
                if same_bss(t[i], t[j]) {
                    assert(same_bss(s[i], r));
                    assert(has_bss(s, r));
                }
            } else {
                assert(t[i] == s[i] && t[j] == s[j]);
            }
        }
    }
}

fn bssid_eq(a: &[u8; 6], b: &[u8; 6]) -> (r: bool)
    ensures
        r == (a@ == b@),
{
    let r = a[0] == b[0] && a[1] == b[1] && a[2] == b[2] && a[3] == b[3] && a[4] == b[4] && a[5]
        == b[5];
    if r {
        assert(a@ =~= b@);
    }
    r
}

impl Cyw43Inner {
    fn ev_byte(&self, offset: usize, copy: usize, i: usize) -> (b: u8)
        requires
            self.wf(),
            copy <= 140,
            i < 140,
            copy > 0 ==> offset + 32 + copy <= SPID_BUF_LEN,
        ensures
            b == (if i < copy { self@.buf[offset + 32 + i] } else { 0u8 }),
    {
        if i < copy {
            self.spid_buf[offset + 32 + i]
        } else {
            0
        }
    }

    fn ev_be32(&self, offset: usize, copy: usize, i: usize) -> (v: u32)
        requires
            self.wf(),
            copy <= 140,
            i + 4 <= 140,
            copy > 0 ==> offset + 32 + copy <= SPID_BUF_LEN,
        ensures
            v == (if i < copy { self@.buf[offset + 32 + i] } else { 0u8 }) * 16777216 + (if i
                + 1 < copy {
                self@.buf[offset + 32 + i + 1]
            } else {
                0u8
            }) * 65536 + (if i + 2 < copy {
                self@.buf[offset + 32 + i + 2]
            } else {
                0u8
            }) * 256 + (if i + 3 < copy {
                self@.buf[offset + 32 + i + 3]
            } else {
                0u8
            }),
    {
        (self.ev_byte(offset, copy, i) as u32) * 16777216 + (self.ev_byte(offset, copy, i + 1)
            as u32) * 65536 + (self.ev_byte(offset, copy, i + 2) as u32) * 256 + self.ev_byte(
            offset,
            copy,
            i + 3,
        ) as u32
    }

    /// Decodes the escan result of the async event of `len` bytes at
    /// `offset` (the SSID length is capped at 32 bytes and the channel keeps
    /// its low byte).
    pub fn parse_scan_result(&self, offset: usize, len: usize) -> (r: ScanResult)
        requires
            self.wf(),
            len >= 48,
            event_readable(offset as int, len as int),
        ensures
            is_parsed_scan(r, self@.buf, offset as int, len as int),
            r == parsed_scan(self@.buf, offset as int, len as int),
    {
        let copy: usize = if len - 32 < ASYNC_EVENT_SIZE {
            len - 32
        } else {
            ASYNC_EVENT_SIZE
        };
        let raw_len = self.ev_byte(offset, copy, 78) as usize;
        let n: usize = if raw_len < 32 {
            raw_len
        } else {
            32
        };
        let mut ssid = [0u8; 32];
        let mut j: usize = 0;
        while j < n
            invariant
                self.wf(),
                n <= 32,
                j <= n,
                copy == event_copy_len(len as int),
                copy <= 140,
                copy > 0 ==> offset + 32 + copy <= SPID_BUF_LEN,
                forall|k: int|
                    0 <= k < 32 ==> #[trigger] ssid@[k] == (if k < j {
                        ev_byte(self@.buf, offset as int, len as int, 79 + k)
                    } else {
                        0u8
                    }),
            decreases n - j,
        {
            ssid[j] = self.ev_byte(offset, copy, 79 + j);
            j = j + 1;
        }
        let mut bssid = [0u8; 6];
        let mut k: usize = 0;
        while k < 6
            invariant
                self.wf(),
                k <= 6,
                copy == event_copy_len(len as int),
                copy <= 140,
                copy > 0 ==> offset + 32 + copy <= SPID_BUF_LEN,
                forall|m: int|
                    0 <= m < k ==> #[trigger] bssid@[m] == ev_byte(
                        self@.buf,
                        offset as int,
                        len as int,
                        68 + m,
                    ),
            decreases 6 - k,
        {
            bssid[k] = self.ev_byte(offset, copy, 68 + k);
            k = k + 1;
        }
        let ch = self.ev_byte(offset, copy, 132) as u16 + (self.ev_byte(offset, copy, 133) as u16)
            * 256;
        let rssi_raw = self.ev_byte(offset, copy, 138) as u16 + (self.ev_byte(offset, copy, 139)
            as u16) * 256;
        let rssi: i16 = if rssi_raw >= 32768 {
            (rssi_raw as i32 - 65536) as i16
        } else {
            rssi_raw as i16
        };
        let r = ScanResult { ssid, ssid_len: n, bssid, channel: ch % 256, rssi };
        proof {
            lemma_parsed_scan_unique(r, self@.buf, offset as int, len as int);
        }
        r
    }

    /// Whether an access point equal in BSSID and channel to `res` is listed.
    fn scan_listed(&self, res: &ScanResult) -> (found: bool)
        requires
            self.wf(),
        ensures
            found == has_bss(self@.scans, *res),
    {
        let n = scan_list_len(&self.scan_results);
        let mut i: usize = 0;
        while i < n
            invariant
                self.wf(),
                n == self@.scans.len(),
                i <= n,
                forall|k: int| 0 <= k < i ==> !same_bss(#[trigger] self@.scans[k], *res),
            decreases n - i,
        {
            let r = scan_list_get(&self.scan_results, i);
            if bssid_eq(&r.bssid, &res.bssid) && r.channel == res.channel {
                assert(same_bss(self@.scans[i as int], *res));
                return true;
            }
            i = i + 1;
        }
        false
    }

    /// Acts on an async event: escan results are collected without repeats,
    /// the end of a scan is noted, and join / disassociation events move
    /// the link state.
    pub fn handle_async_event(&mut self, offset: usize, len: usize) -> (r: Result<(), DevError>)
        requires
            old(self).wf(),
            event_readable(offset as int, len as int),
        ensures
            final(self).wf(),
            r is Ok,
            final(self)@ == async_event_spec(old(self)@, offset as int, len as int),
    {
        if len < EVENT_OFFSET_IN_PAYLOAD + 16 {
            return Ok(());
        }
        let copy: usize = if len - 32 < ASYNC_EVENT_SIZE {
            len - 32
        } else {
            ASYNC_EVENT_SIZE
        };
        let event_type = self.ev_be32(offset, copy, 4);
        let status = self.ev_be32(offset, copy, 8);
        assert(event_type == ev_type(self@.buf, offset as int, len as int));
        assert(status == ev_status(self@.buf, offset as int, len as int));

        if event_type == EVENT_ESCAN_RESULT {
            if status == STATUS_PARTIAL {
                let res = self.parse_scan_result(offset, len);
                let ghost before = self@.scans;
                if !self.scan_listed(&res) {
                    let _ = scan_list_push(&mut self.scan_results, res);
                }
                proof {
                    lemma_scan_add_distinct(before, res);
                }
                assert(self@.scans == scan_add_spec(before, res));
            } else if status == STATUS_SUCCESS {
                self.scan_done = true;
                self.scan_in_progress = false;
            }
        } else if event_type == EVENT_SET_SSID {
            if status == 0 {
                self.state = WifiState::Connected;
            } else {
                self.state = WifiState::ConnectFailed;
            }
        } else if event_type == EVENT_DISASSOC {
            self.state = WifiState::Down;
        }
        Ok(())
    }
}

} // verus!
