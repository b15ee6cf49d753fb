use vstd::prelude::*;

use crate::error::DevError;

pub mod scan_list;
pub mod sdpcm;
pub mod event;
pub mod ioctl;
pub mod payload;
pub mod bus;
pub mod fw;
pub mod country;
pub mod pio_ctrl;
pub mod wait;

use scan_list::{scan_list_clear, scan_list_get, scan_list_items, scan_list_len, scan_list_new, scan_list_push};
use crate::wire::{get_le16, le16, overwrite, put_bytes};

verus! {

/// One access point reported by an escan.
#[derive(Clone, Copy, Debug)]
pub struct ScanResult {
    pub ssid: [u8; 32],
    pub ssid_len: usize,
    pub bssid: [u8; 6],
    pub channel: u16,
    pub rssi: i16,
}

/// Link state of the station interface as reported by the firmware.
#[derive(Clone, Copy, Debug, PartialEq, Eq, Structural)]
pub enum WifiState {
    Down,
    Connected,
    ConnectFailed,
}

/// Security used to join a network.
#[derive(Clone, Copy, Debug, PartialEq, Eq, Structural)]
pub enum WifiAuth {
    Open,
    WpaTkipPsk,
    Wpa2AesPsk,
    Wpa2MixedPsk,
    Wpa3SaeAesPsk,
    Wpa3Wpa2AesPsk,
}

/// A region of the transfer buffer.
#[derive(Clone, Copy, Debug, PartialEq, Eq, Structural)]
pub struct PendingBuf {
    pub offset: usize,
    pub len: usize,
}

/// An ioctl response kept until the request that waits for it collects it.
#[derive(Clone, Copy, Debug, PartialEq, Eq, Structural)]
pub struct PendingIoctlResp {
    pub buf: PendingBuf,
    pub status: i32,
}

/// Size of the SPI transfer buffer.
pub const SPID_BUF_LEN: usize = 2048;

/// The protocol state of the CYW43439 driver: sequence numbers, flow control,
/// the transfer buffer, scan bookkeeping and the link state.
pub struct Cyw43Inner {
    pub(crate) sdpcm_seq: u8,
    pub(crate) packet_tx_seq: u8,
    pub(crate) last_bus_data_credit: u8,
    pub(crate) wlan_flow_control: u8,
    pub(crate) requested_ioctl_id: u8,
    pub(crate) had_successful_packet: bool,
    pub(crate) spid_buf: Vec<u8>,
    pub(crate) startup_t0: u64,
    pub(crate) scan_results: heapless::Vec<ScanResult, 32>,
    pub(crate) scan_done: bool,
    pub(crate) scan_in_progress: bool,
    pub(crate) bus_is_up: bool,
    pub(crate) state: WifiState,
    pub(crate) pending_ioctl_resp: Option<PendingIoctlResp>,
    pub(crate) pending_rx: Option<PendingBuf>,
}

/// The abstract value of [`Cyw43Inner`].
pub struct Cyw43Model {
    pub tx_seq: u8,
    pub credit: u8,
    pub flow: u8,
    pub ioctl_id: u8,
    pub had_packet: bool,
    pub buf: Seq<u8>,
    pub scans: Seq<ScanResult>,
    pub scan_done: bool,
    pub scan_in_progress: bool,
    pub bus_is_up: bool,
    pub state: WifiState,
    pub pending_ioctl: Option<PendingIoctlResp>,
    pub pending_rx: Option<PendingBuf>,
    /// Control-frame sequence counter.
    pub sdpcm_seq: u8,
    /// Time of power-up, in microseconds.
    pub startup_t0: u64,
}

impl View for Cyw43Inner {
    type V = Cyw43Model;

    closed spec fn view(&self) -> Cyw43Model {
        Cyw43Model {
            tx_seq: self.packet_tx_seq,
            credit: self.last_bus_data_credit,
            flow: self.wlan_flow_control,
            ioctl_id: self.requested_ioctl_id,
            had_packet: self.had_successful_packet,
            buf: self.spid_buf@,
            scans: scan_list_items(self.scan_results),
            scan_done: self.scan_done,
            scan_in_progress: self.scan_in_progress,
            bus_is_up: self.bus_is_up,
            state: self.state,
            pending_ioctl: self.pending_ioctl_resp,
            pending_rx: self.pending_rx,
            sdpcm_seq: self.sdpcm_seq,
            startup_t0: self.startup_t0,
        }
    }
}

/// Two scan results name the same access point on the same channel.
pub open spec fn same_bss(a: ScanResult, b: ScanResult) -> bool {
    a.bssid@ == b.bssid@ && a.channel == b.channel
}

/// No access point is listed twice.
pub open spec fn scans_distinct(s: Seq<ScanResult>) -> bool {
    forall|i: int, j: int| 0 <= i < j < s.len() ==> !same_bss(#[trigger] s[i], #[trigger] s[j])
}

/// `value` rounded up to the next multiple of the power of two `align`:
/// the only value in `value .. value + align` whose bits below `align` are clear.
pub fn align_up(value: usize, align: usize) -> (r: usize)
    requires
        align > 0,
        align & ((align - 1) as usize) == 0,
        value + align - 1 <= usize::MAX,
    ensures
        r & ((align - 1) as usize) == 0,
        value <= r < value + align,
{
    let s = value + (align - 1);
    let m = align - 1;
    let r = s & !m;
    assert(r & m == 0 && value <= r && r <= s) by (bit_vector)
        requires
            align > 0,
            align & m == 0,
            m == align - 1,
            s == value + m,
            r == s & !m,
    ;
    r
}

impl Cyw43Inner {
    /// The invariant every operation keeps.
    pub open spec fn wf(&self) -> bool {
        &&& self@.buf.len() == SPID_BUF_LEN
        &&& self@.scans.len() <= 32
        &&& scans_distinct(self@.scans)
    }

    /// A driver state before the chip has been powered up.
    pub fn new() -> (r: Self)
        ensures
            r.wf(),
            r@.tx_seq == 0,
            r@.credit == 1,
            r@.flow == 0,
            r@.ioctl_id == 0,
            !r@.had_packet,
            r@.buf == Seq::new(SPID_BUF_LEN as nat, |i: int| 0u8),
            r@.scans == Seq::<ScanResult>::empty(),
            !r@.scan_done,
            !r@.scan_in_progress,
            !r@.bus_is_up,
            r@.state == WifiState::Down,
            r@.pending_ioctl is None,
            r@.pending_rx is None,
            r@.sdpcm_seq == 0,
            r@.startup_t0 == 0,
    {
        let mut buf: Vec<u8> = Vec::new();
        let mut i: usize = 0;
        while i < SPID_BUF_LEN
            invariant
                i <= SPID_BUF_LEN,
                buf@ == Seq::new(i as nat, |k: int| 0u8),
            decreases SPID_BUF_LEN - i,
        {
            buf.push(0);
            i = i + 1;
            assert(buf@ =~= Seq::new(i as nat, |k: int| 0u8));
        }
        Cyw43Inner {
            sdpcm_seq: 0,
            packet_tx_seq: 0,
            last_bus_data_credit: 1,
            wlan_flow_control: 0,
            requested_ioctl_id: 0,
            had_successful_packet: false,
            spid_buf: buf,
            startup_t0: 0,
            scan_results: scan_list_new(),
            scan_done: false,
            scan_in_progress: false,
            bus_is_up: false,
            state: WifiState::Down,
            pending_ioctl_resp: None,
            pending_rx: None,
        }
    }
}

/// The 64-bit microsecond count from two reads of the high word around a
/// read of the low word; `None` when the high word changed in between and
/// the read must be repeated.
pub fn combine_ticks(hi1: u32, lo: u32, hi2: u32) -> (r: Option<u64>)
    ensures
        hi1 != hi2 ==> r is None,
        hi1 == hi2 ==> r == Some(((hi1 as u64) * 0x1_0000_0000 + lo as u64) as u64),
{
    if hi1 == hi2 {
        let v = ((hi1 as u64) << 32u64) | lo as u64;
        assert(v == (hi1 as u64) * 0x1_0000_0000 + lo as u64) by (bit_vector)
            requires
                v == ((hi1 as u64) << 32u64) | lo as u64,
        ;
        Some(v)
    } else {
        None
    }
}

/// Time still to wait after power-up before the firmware accepts the event
/// mask: the rest of 150 ms.
pub fn startup_wait_us(elapsed_us: u32) -> (w: u32)
    ensures
        elapsed_us < 150_000 ==> w == 150_000 - elapsed_us,
        elapsed_us >= 150_000 ==> w == 0,
{
    if elapsed_us < 150_000 {
        150_000 - elapsed_us
    } else {
        0
    }
}

impl Cyw43Inner {
    /// Copies received bytes to the start of the transfer buffer.
    pub fn load_rx(&mut self, data: &[u8])
        requires
            old(self).wf(),
            data@.len() <= SPID_BUF_LEN,
        ensures
            final(self).wf(),
            final(self)@ == (Cyw43Model { buf: overwrite(old(self)@.buf, 0, data@), ..old(self)@ }),
    {
        put_bytes(&mut self.spid_buf, 0, data);
    }

    /// A copy of `len` bytes of the transfer buffer from `offset` on.
    pub fn buf_bytes(&self, offset: usize, len: usize) -> (v: Vec<u8>)
        requires
            self.wf(),
            offset + len <= SPID_BUF_LEN,
        ensures
            v@ == self@.buf.subrange(offset as int, offset + len),
    {
        let mut v: Vec<u8> = Vec::new();
        let mut i: usize = 0;
        while i < len
            invariant
                self.wf(),
                offset + len <= SPID_BUF_LEN,
                i <= len,
                v@ == self@.buf.subrange(offset as int, offset + i),
            decreases len - i,
        {
            v.push(self.spid_buf[offset + i]);
            i = i + 1;
            assert(v@ =~= self@.buf.subrange(offset as int, offset + i));
        }
        v
    }

    /// Notes the outcome of a status word: frames that are absent or
    /// malformed end the run of successful reads.
    pub fn on_spi_status(&mut self, d: bus::StatusDecision)
        requires
            old(self).wf(),
        ensures
            final(self).wf(),
            final(self)@ == (if d == bus::StatusDecision::NoPacket || d == bus::StatusDecision::Invalid {
                Cyw43Model { had_packet: false, ..old(self)@ }
            } else {
                old(self)@
            }),
    {
        match d {
            bus::StatusDecision::NoPacket | bus::StatusDecision::Invalid => {
                self.had_successful_packet = false;
            },
            _ => {},
        }
    }

    /// Checks the length words of a frame just read: an all-zero header ends
    /// the run of successful reads; any other header continues it, and the
    /// frame is taken apart only when the length and its complement agree.
    pub fn on_rx_header(&mut self) -> (process: bool)
        requires
            old(self).wf(),
        ensures
            final(self).wf(),
            ({
                let size = le16(old(self)@.buf, 0);
                let com = le16(old(self)@.buf, 2);
                &&& size == 0 && com == 0 ==> !process && final(self)@ == (Cyw43Model { had_packet: false, ..old(self)@ })
                &&& !(size == 0 && com == 0) ==> final(self)@ == (Cyw43Model { had_packet: true, ..old(self)@ })
                    && process == (size + com == 65535)
            }),
    {
        let size = get_le16(&self.spid_buf, 0);
        let size_com = get_le16(&self.spid_buf, 2);
        if size == 0 && size_com == 0 {
            self.had_successful_packet = false;
            return false;
        }
        self.had_successful_packet = true;
        let x = size ^ size_com;
        assert(x == 0xffff <==> size + size_com == 65535) by (bit_vector)
            requires
                x == size ^ size_com,
        ;
        x == 0xffff
    }

    /// Whether the previous read found a frame (the interrupt register is
    /// only consulted when it did not).
    pub fn had_successful_packet(&self) -> (r: bool)
        ensures
            r == self@.had_packet,
    {
        self.had_successful_packet
    }

    /// A scan was asked for while one is still running.
    pub fn scan_in_progress(&self) -> (r: bool)
        ensures
            r == self@.scan_in_progress,
    {
        self.scan_in_progress
    }

    /// Records that the firmware accepted an escan request: the scan runs,
    /// is not done, and earlier results are dropped.
    pub fn scan_started(&mut self)
        requires
            old(self).wf(),
        ensures
            final(self).wf(),
            final(self)@ == (Cyw43Model {
                scan_in_progress: true,
                scan_done: false,
                scans: Seq::<ScanResult>::empty(),
                ..old(self)@
            }),
    {
        self.scan_in_progress = true;
        self.scan_done = false;
        scan_list_clear(&mut self.scan_results);
    }

    /// The last escan has completed.
    pub fn scan_done(&self) -> (r: bool)
        ensures
            r == self@.scan_done,
    {
        self.scan_done
    }

    /// Copies the results collected by the last escan, in the order
    /// reported, into `res`, replacing what it held.
    pub fn wifi_scan_results(&self, res: &mut heapless::Vec<ScanResult, 32>)
        requires
            self.wf(),
        ensures
            scan_list_items(*final(res)) == self@.scans,
    {
        scan_list_clear(res);
        let n = scan_list_len(&self.scan_results);
        let mut i: usize = 0;
        while i < n
            invariant
                self.wf(),
                n == self@.scans.len(),
                i <= n,
                scan_list_items(*res) == self@.scans.subrange(0, i as int),
            decreases n - i,
        {
            scan_list_push(res, scan_list_get(&self.scan_results, i));
            i = i + 1;
            assert(scan_list_items(*res) =~= self@.scans.subrange(0, i as int));
        }
        assert(self@.scans.subrange(0, n as int) =~= self@.scans);
    }

    /// The results collected by the last escan, in the order reported.
    pub fn scan_results(&self) -> (v: Vec<ScanResult>)
        requires
            self.wf(),
        ensures
            v@ == self@.scans,
    {
        let n = scan_list_len(&self.scan_results);
        let mut v: Vec<ScanResult> = Vec::new();
        let mut i: usize = 0;
        while i < n
            invariant
                self.wf(),
                n == self@.scans.len(),
                i <= n,
                v@ == self@.scans.subrange(0, i as int),
            decreases n - i,
        {
            v.push(scan_list_get(&self.scan_results, i));
            i = i + 1;
            assert(v@ =~= self@.scans.subrange(0, i as int));
        }
        assert(self@.scans.subrange(0, n as int) =~= self@.scans);
        v
    }

    /// The link state.
    pub fn get_state(&self) -> (s: WifiState)
        ensures
            s == self@.state,
    {
        self.state
    }

    /// Whether the chip has been brought up.
    pub fn bus_is_up(&self) -> (r: bool)
        ensures
            r == self@.bus_is_up,
    {
        self.bus_is_up
    }

    /// Records that the chip has been brought up.
    pub fn set_bus_up(&mut self)
        requires
            old(self).wf(),
        ensures
            final(self).wf(),
            final(self)@ == (Cyw43Model { bus_is_up: true, ..old(self)@ }),
    {
        self.bus_is_up = true;
    }

    /// Takes the ethernet frame left by the last drain.
    pub fn take_pending_rx(&mut self) -> (r: Option<PendingBuf>)
        requires
            old(self).wf(),
        ensures
            final(self).wf(),
            r == old(self)@.pending_rx,
            final(self)@ == (Cyw43Model { pending_rx: None, ..old(self)@ }),
    {
        self.pending_rx.take()
    }

    /// Records the time of power-up.
    pub fn set_startup_time(&mut self, t0: u64)
        requires
            old(self).wf(),
        ensures
            final(self).wf(),
            final(self)@ == (Cyw43Model { startup_t0: t0, ..old(self)@ }),
    {
        self.startup_t0 = t0;
    }

    /// The time of power-up.
    pub fn startup_t0(&self) -> (t: u64)
        ensures
            t == self@.startup_t0,
    {
        self.startup_t0
    }
}

} // verus!
