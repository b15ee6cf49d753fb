use vstd::prelude::*;
use crate::bits::lemma_usize_bits;

use super::event::{async_event_spec, event_readable};
use super::ioctl::{iface_number, ioctl_flags, op_number, SdpcmOp};
use super::{align_up, Cyw43Inner, Cyw43Model, PendingBuf, PendingIoctlResp, SPID_BUF_LEN};
use crate::error::DevError;
use crate::wire::{as_i32, get_le16, get_le32, le16, le16_bytes, le32, overwrite, put_bytes, put_le16};

verus! {

/// Length of the SDPCM header that starts every frame.
pub const SDPCM_HEADER_LEN: usize = 12;

/// Length of the BDC header in front of data frames.
pub const BDC_HEADER_LEN: usize = 4;

/// Length of the CDC ioctl header.
pub const IOCTL_HEADER_LEN: usize = 16;

/// SDPCM channel numbers.
pub const CONTROL_HEADER: u8 = 0;
pub const ASYNCEVENT_HEADER: u8 = 1;
pub const DATA_HEADER: u8 = 2;

/// Interface a frame belongs to.
#[derive(Copy, Clone, Debug, PartialEq, Eq, Structural)]
pub enum Interface {
    STA,
    AP,
    P2P,
}

/// The interface numbered `v`; unknown numbers fall back to the station.
pub open spec fn interface_of(v: u8) -> Interface {
    if v == 1 {
        Interface::AP
    } else if v == 2 {
        Interface::P2P
    } else {
        Interface::STA
    }
}

impl Interface {
    pub fn from_u8(v: u8) -> (r: Interface)
        ensures
            r == interface_of(v),
    {
        match v {
            0 => Interface::STA,
            1 => Interface::AP,
            2 => Interface::P2P,
            _ => Interface::STA,
        }
    }

    /// The interface number put in ioctl flags.
    pub fn number(self) -> (n: u32)
        ensures
            n == super::ioctl::iface_number(self),
    {
        match self {
            Interface::STA => 0,
            Interface::AP => 1,
            Interface::P2P => 2,
        }
    }
}

/// What a received frame turned out to be.
#[derive(Clone, Copy, Debug, PartialEq, Eq, Structural)]
pub enum SdpcmPacket {
    Nothing,
    Control { offset: usize, len: usize, status: i32 },
    AsyncEvent { offset: usize, len: usize },
    Data { offset: usize, len: usize, interface: Interface },
    Unexpected(u8),
}

/// Frame length field of the SDPCM header.
pub open spec fn rx_size(buf: Seq<u8>) -> int {
    le16(buf, 0)
}

/// The header's length and its complement agree and the frame holds a header.
pub open spec fn rx_header_ok(buf: Seq<u8>) -> bool {
    &&& le16(buf, 2) == 65535 - le16(buf, 0)
    &&& le16(buf, 0) >= SDPCM_HEADER_LEN
}

/// Channel number of the received frame.
pub open spec fn rx_channel(buf: Seq<u8>) -> int {
    (buf[5] % 16) as int
}

/// An async event frame whose header length exceeds the frame length cannot
/// be taken apart (the payload length would be negative).
pub open spec fn rx_frame_sane(buf: Seq<u8>) -> bool {
    rx_header_ok(buf) && rx_channel(buf) == ASYNCEVENT_HEADER ==> buf[7] <= rx_size(buf)
}

/// The packet a received frame in `buf` denotes, given the id of the ioctl
/// that is outstanding.
pub open spec fn rx_packet_spec(buf: Seq<u8>, ioctl_id: u8) -> SdpcmPacket {
    let size = rx_size(buf);
    let hl = buf[7] as int;
    if !rx_header_ok(buf) {
        SdpcmPacket::Nothing
    } else if rx_channel(buf) == CONTROL_HEADER {
        if size < hl + IOCTL_HEADER_LEN {
            SdpcmPacket::Nothing
        } else if le32(buf, hl + 8) / 65536 != ioctl_id {
            SdpcmPacket::Nothing
        } else {
            SdpcmPacket::Control {
                offset: (hl + 16) as usize,
                len: (size - (hl + 16)) as usize,
                status: as_i32(le32(buf, hl + 12)) as i32,
            }
        }
    } else if rx_channel(buf) == DATA_HEADER {
        if size <= SDPCM_HEADER_LEN + BDC_HEADER_LEN {
            SdpcmPacket::Nothing
        } else if size < hl + BDC_HEADER_LEN {
            SdpcmPacket::Nothing
        } else if size < hl + BDC_HEADER_LEN + buf[hl + 3] * 4 {
            SdpcmPacket::Nothing
        } else {
            let payload = hl + BDC_HEADER_LEN + buf[hl + 3] * 4;
            SdpcmPacket::Data {
                offset: payload as usize,
                len: (size - payload) as usize,
                interface: interface_of(buf[hl + 2]),
            }
        }
    } else if rx_channel(buf) == ASYNCEVENT_HEADER {
        SdpcmPacket::AsyncEvent { offset: hl as usize, len: (size - hl) as usize }
    } else {
        SdpcmPacket::Nothing
    }
}

/// A control frame answering the outstanding ioctl, carrying the flags word
/// that request was sent with (its id in the top half, any interface and
/// direction below), is taken as that ioctl's response: its payload starts
/// after the CDC header and runs to the end of the frame, and its status is
/// the CDC status word read as signed.
pub proof fn lemma_reply_to_request_accepted(buf: Seq<u8>, ioctl_id: u8, op: SdpcmOp, iface: Interface)
    requires
        rx_header_ok(buf),
        rx_channel(buf) == CONTROL_HEADER,
        buf[7] + IOCTL_HEADER_LEN <= rx_size(buf),
        le32(buf, buf[7] + 8) == ioctl_flags(ioctl_id, op_number(op), iface_number(iface)),
    ensures
        rx_packet_spec(buf, ioctl_id) == (SdpcmPacket::Control {
            offset: (buf[7] + 16) as usize,
            len: (rx_size(buf) - (buf[7] + 16)) as usize,
            status: as_i32(le32(buf, buf[7] + 12)) as i32,
        }),
{
    lemma_reply_flags_id(ioctl_id as int, (iface_number(iface) * 4096 + op_number(op)) as int);
}

/// A well-formed control frame whose flags carry another request's id in
/// their top half is not a response to the outstanding ioctl, whatever the
/// lower half holds.
pub proof fn lemma_reply_to_other_request_dropped(buf: Seq<u8>, ioctl_id: u8, other_id: int, low: int)
    requires
        rx_header_ok(buf),
        rx_channel(buf) == CONTROL_HEADER,
        buf[7] + IOCTL_HEADER_LEN <= rx_size(buf),
        0 <= other_id < 65536,
        other_id != ioctl_id,
        0 <= low < 65536,
        le32(buf, buf[7] + 8) == other_id * 65536 + low,
    ensures
        rx_packet_spec(buf, ioctl_id) == SdpcmPacket::Nothing,
{
    lemma_reply_flags_id(other_id, low);
}

/// A data frame: the ethernet payload starts after the SDPCM header, the
/// four-byte BDC header and the BDC data offset (counted in words), and
/// runs to the end of the frame; it belongs to the interface the BDC flags
/// byte names (the station for numbers the chip does not use).
pub proof fn lemma_data_frame_payload(buf: Seq<u8>, ioctl_id: u8)
    requires
        rx_header_ok(buf),
        rx_channel(buf) == DATA_HEADER,
        rx_size(buf) > SDPCM_HEADER_LEN + BDC_HEADER_LEN,
        buf[7] + BDC_HEADER_LEN + 4 * buf[buf[7] + 3] <= rx_size(buf),
    ensures
        rx_packet_spec(buf, ioctl_id) matches SdpcmPacket::Data { offset, len, interface } && offset
            == buf[7] + 4 + 4 * buf[buf[7] + 3] && offset + len == rx_size(buf) && (buf[buf[7] + 2] < 3
            ==> iface_number(interface) == buf[buf[7] + 2]) && (buf[buf[7] + 2] >= 3 ==> interface
            == Interface::STA),
{
}

/// An event frame hands over everything after its SDPCM header.
pub proof fn lemma_event_frame_payload(buf: Seq<u8>, ioctl_id: u8)
    requires
        rx_header_ok(buf),
        rx_channel(buf) == ASYNCEVENT_HEADER,
        buf[7] <= rx_size(buf),
    ensures
        rx_packet_spec(buf, ioctl_id) == (SdpcmPacket::AsyncEvent {
            offset: buf[7] as usize,
            len: (rx_size(buf) - buf[7]) as usize,
        }),
{
}

/// A frame whose length word and its complement disagree, or that is
/// shorter than an SDPCM header, is dropped.
pub proof fn lemma_bad_header_dropped(buf: Seq<u8>, ioctl_id: u8)
    requires
        le16(buf, 0) + le16(buf, 2) != 65535 || le16(buf, 0) < SDPCM_HEADER_LEN,
    ensures
        rx_packet_spec(buf, ioctl_id) == SdpcmPacket::Nothing,
{
}

proof fn lemma_reply_flags_id(id: int, low: int)
    requires
        0 <= id,
        0 <= low < 65536,
    ensures
        (id * 65536 + low) / 65536 == id,
{
    assert((id * 65536 + low) / 65536 == id) by (nonlinear_arith)
        requires
            0 <= id,
            0 <= low < 65536,
    ;
}

/// Flow-control state after a frame in `m.buf` has been taken apart: a valid
/// header carries the firmware's flow-control byte, and a credit on channels
/// 0 to 2 is accepted when it advances by at most 20.
pub open spec fn rx_state_spec(m: Cyw43Model) -> Cyw43Model {
    let buf = m.buf;
    if !rx_header_ok(buf) {
        m
    } else if rx_channel(buf) < 3 && buf[9].wrapping_sub(m.credit) <= 20 {
        Cyw43Model { flow: buf[8], credit: buf[9], ..m }
    } else {
        Cyw43Model { flow: buf[8], ..m }
    }
}

impl Cyw43Inner {
    /// Whether the frame in the transfer buffer can be taken apart: an event
    /// frame's header must not be longer than the frame.
    pub fn rx_frame_ok(&self) -> (r: bool)
        requires
            self.wf(),
        ensures
            r == rx_frame_sane(self@.buf),
    {
        let size = get_le16(&self.spid_buf, 0);
        let com = get_le16(&self.spid_buf, 2);
        let header_ok = com as u32 + size as u32 == 65535 && size as usize >= SDPCM_HEADER_LEN;
        if header_ok && self.spid_buf[5] % 16 == ASYNCEVENT_HEADER {
            self.spid_buf[7] as u16 <= size
        } else {
            true
        }
    }

    /// Takes apart the frame at the start of the transfer buffer: checks
    /// the header, updates flow control and bus credit, and locates the
    /// payload of control, event and data frames.
    pub fn sdpcm_process_rx_packet(&mut self, _packet_len: usize) -> (r: Result<SdpcmPacket, DevError>)
        requires
            old(self).wf(),
            rx_frame_sane(old(self)@.buf),
        ensures
            final(self).wf(),
            r == Ok::<SdpcmPacket, DevError>(rx_packet_spec(old(self)@.buf, old(self)@.ioctl_id)),
            final(self)@ == rx_state_spec(old(self)@),
    {
        let size16 = get_le16(&self.spid_buf, 0);
        let size_com = get_le16(&self.spid_buf, 2);
        let size = size16 as usize;

        if size_com != 65535 - size16 {
            return Ok(SdpcmPacket::Nothing);
        }
        if size < SDPCM_HEADER_LEN {
            return Ok(SdpcmPacket::Nothing);
        }

        self.wlan_flow_control = self.spid_buf[8];

        let channel = self.spid_buf[5] % 16;
        let bus_data_credit = self.spid_buf[9];

        if channel < 3 {
            let credit = bus_data_credit.wrapping_sub(self.last_bus_data_credit);
            if credit <= 20 {
                self.last_bus_data_credit = bus_data_credit;
            }
        }

        let header_length = self.spid_buf[7] as usize;

        if channel == CONTROL_HEADER {
            let ioctl_offset = header_length;
            if size < ioctl_offset + IOCTL_HEADER_LEN {
                return Ok(SdpcmPacket::Nothing);
            }
            let flags = get_le32(&self.spid_buf, ioctl_offset + 8);
            let raw_status = get_le32(&self.spid_buf, ioctl_offset + 12);
            let status: i32 = if raw_status >= 0x8000_0000 {
                (raw_status as i64 - 0x1_0000_0000i64) as i32
            } else {
                raw_status as i32
            };
            let id = flags / 65536;
            if id != self.requested_ioctl_id as u32 {
                return Ok(SdpcmPacket::Nothing);
            }
            let payload_offset = ioctl_offset + IOCTL_HEADER_LEN;
            let payload_len = size - payload_offset;
            Ok(SdpcmPacket::Control { offset: payload_offset, len: payload_len, status })
        } else if channel == DATA_HEADER {
            if size <= SDPCM_HEADER_LEN + BDC_HEADER_LEN {
                return Ok(SdpcmPacket::Nothing);
            }
            let bdc_offset = header_length;
            if size < bdc_offset + BDC_HEADER_LEN {
                return Ok(SdpcmPacket::Nothing);
            }
            let flags2 = self.spid_buf[bdc_offset + 2];
            let data_offset_words = self.spid_buf[bdc_offset + 3] as usize;
            let payload_offset = bdc_offset + BDC_HEADER_LEN + data_offset_words * 4;
            if size < payload_offset {
                return Ok(SdpcmPacket::Nothing);
            }
            let payload_len = size - payload_offset;
            Ok(
                SdpcmPacket::Data {
                    offset: payload_offset,
                    len: payload_len,
                    interface: Interface::from_u8(flags2),
                },
            )
        } else if channel == ASYNCEVENT_HEADER {
            let payload_offset = header_length;
            let payload_len = size - payload_offset;
            Ok(SdpcmPacket::AsyncEvent { offset: payload_offset, len: payload_len })
        } else {
            Ok(SdpcmPacket::Nothing)
        }
    }
}


/// `x` rounded up to a multiple of four.
pub open spec fn round_up4(x: int) -> int {
    x + (4 - x % 4) % 4
}

proof fn lemma_round_up4(x: int, w: int)
    requires
        w % 4 == 0,
        x <= w < x + 4,
    ensures
        w == round_up4(x),
{
}

/// The SDPCM header of an outgoing frame of `size` bytes.
pub open spec fn tx_header_bytes(size: int, seq: u8, kind: u8) -> Seq<u8> {
    le16_bytes(size as u16) + le16_bytes((65535 - size) as u16) + seq![
        seq,
        kind,
        0u8,
        if kind == DATA_HEADER { 14u8 } else { 12u8 },
        0u8,
        0u8,
        0u8,
        0u8,
    ]
}

/// Only control and data frames are sent.
pub fn sdpcm_check_kind(kind: u8) -> (r: Result<(), DevError>)
    ensures
        r is Ok <==> (kind == CONTROL_HEADER || kind == DATA_HEADER),
        r is Err ==> r == Err::<(), DevError>(DevError::InvalidArg),
{
    if kind != CONTROL_HEADER && kind != DATA_HEADER {
        Err(DevError::InvalidArg)
    } else {
        Ok(())
    }
}

/// What to do next while waiting for transmit credit.
#[derive(Clone, Copy, Debug, PartialEq, Eq, Structural)]
pub enum StallStep {
    /// A control response was stored; poll again at once.
    Retry,
    /// Credit is available; the frame can be sent.
    Done,
    /// Still no credit; wait and poll again unless the time is up.
    Wait,
}

/// What to do next while draining received frames.
#[derive(Clone, Copy, Debug, PartialEq, Eq, Structural)]
pub enum PollStep {
    /// Keep polling.
    Continue,
    /// An ethernet frame is pending in the buffer.
    Rx,
    /// Nothing more is pending.
    Idle,
}

/// The buffer regions a packet's handler reads lie inside the buffer.
pub open spec fn packet_readable(pkt: SdpcmPacket) -> bool {
    match pkt {
        SdpcmPacket::AsyncEvent { offset, len } => event_readable(offset as int, len as int),
        SdpcmPacket::Data { offset, len, .. } => len < 14 || offset + 14 <= SPID_BUF_LEN,
        _ => true,
    }
}

/// Whether the handlers of `pkt` stay inside the buffer.
pub fn is_packet_readable(pkt: SdpcmPacket) -> (r: bool)
    ensures
        r == packet_readable(pkt),
{
    match pkt {
        SdpcmPacket::AsyncEvent { offset, len } => {
            if len < 48 {
                true
            } else {
                let copy: usize = if len - 32 < 140 {
                    len - 32
                } else {
                    140
                };
                offset <= SPID_BUF_LEN && copy + 32 <= SPID_BUF_LEN - offset
            }
        },
        SdpcmPacket::Data { offset, len, .. } => len < 14 || offset <= SPID_BUF_LEN - 14,
        _ => true,
    }
}

/// The state after a packet received while waiting for credit or for an
/// ioctl response: events are acted on, control responses are kept, the
/// rest is dropped.
pub open spec fn stall_effect(m: Cyw43Model, pkt: SdpcmPacket) -> Cyw43Model {
    match pkt {
        SdpcmPacket::AsyncEvent { offset, len } => async_event_spec(m, offset as int, len as int),
        SdpcmPacket::Control { offset, len, status } => Cyw43Model {
            pending_ioctl: Some(PendingIoctlResp { buf: PendingBuf { offset, len }, status }),
            ..m
        },
        _ => m,
    }
}

/// The state after a packet received while draining the device: as while
/// stalling, and an ethernet frame of at least a header's length becomes
/// the pending receive.
pub open spec fn poll_effect(m: Cyw43Model, pkt: SdpcmPacket) -> Cyw43Model {
    match pkt {
        SdpcmPacket::Data { offset, len, .. } => if len >= 14 {
            Cyw43Model { pending_rx: Some(PendingBuf { offset, len }), ..m }
        } else {
            m
        },
        _ => stall_effect(m, pkt),
    }
}

/// The state after the header of a frame with `payload_len` payload bytes
/// has been written and a sequence number taken.
pub open spec fn tx_header_state(m: Cyw43Model, kind: u8, payload_len: int) -> Cyw43Model {
    Cyw43Model {
        tx_seq: m.tx_seq.wrapping_add(1),
        buf: overwrite(m.buf, 0, tx_header_bytes(SDPCM_HEADER_LEN + payload_len, m.tx_seq, kind)),
        ..m
    }
}

/// The next move of the credit wait after `pkt`, in the state it left.
pub open spec fn stall_step_result(m: Cyw43Model, pkt: SdpcmPacket) -> StallStep {
    if pkt is Control {
        StallStep::Retry
    } else if m.flow == 0 && m.credit != m.tx_seq {
        StallStep::Done
    } else {
        StallStep::Wait
    }
}

/// The next move of the receive drain after `pkt`.
pub open spec fn poll_step_result(pkt: SdpcmPacket) -> PollStep {
    match pkt {
        SdpcmPacket::Nothing => PollStep::Idle,
        SdpcmPacket::Data { len, .. } => if len >= 14 {
            PollStep::Rx
        } else {
            PollStep::Continue
        },
        _ => PollStep::Continue,
    }
}

impl Cyw43Inner {
    /// The firmware has closed the flow or granted no credit beyond the
    /// next sequence number.
    pub fn needs_tx_credit(&self) -> (r: bool)
        ensures
            r == (self@.flow != 0 || self@.credit == self@.tx_seq),
    {
        self.wlan_flow_control != 0 || self.last_bus_data_credit == self.packet_tx_seq
    }

    /// Writes the SDPCM header in front of the `payload_len` bytes already
    /// placed after it, takes a sequence number, and gives the length of the
    /// padded transfer; a frame that would not fit the buffer is refused.
    pub fn sdpcm_write_header(&mut self, kind: u8, payload_len: usize) -> (r: Result<usize, DevError>)
        requires
            old(self).wf(),
            kind == CONTROL_HEADER || kind == DATA_HEADER,
            payload_len + SDPCM_HEADER_LEN + 3 <= usize::MAX,
        ensures
            final(self).wf(),
            round_up4(SDPCM_HEADER_LEN + payload_len) > SPID_BUF_LEN ==> r == Err::<usize, DevError>(
                DevError::InvalidArg,
            ) && final(self)@ == old(self)@,
            round_up4(SDPCM_HEADER_LEN + payload_len) <= SPID_BUF_LEN ==> r == Ok::<usize, DevError>(
                round_up4(SDPCM_HEADER_LEN + payload_len) as usize,
            ) && final(self)@ == tx_header_state(old(self)@, kind, payload_len as int),
    {
        let size = SDPCM_HEADER_LEN + payload_len;
        proof {
            lemma_usize_bits(4);
        }
        let write_len = align_up(size, 4);
        proof {
            lemma_usize_bits(write_len);
        }
        proof {
            lemma_round_up4(size as int, write_len as int);
        }
        if write_len > SPID_BUF_LEN {
            return Err(DevError::InvalidArg);
        }
        let size16 = size as u16;
        put_le16(&mut self.spid_buf, 0, size16);
        put_le16(&mut self.spid_buf, 2, 65535 - size16);
        let hl: u8 = if kind == DATA_HEADER {
            14
        } else {
            12
        };
        let rest: [u8; 8] = [self.packet_tx_seq, kind, 0, hl, 0, 0, 0, 0];
        put_bytes(&mut self.spid_buf, 4, rest.as_slice());
        proof {
            let expect = tx_header_bytes(size as int, old(self)@.tx_seq, kind);
            assert(expect.len() == 12);
            assert forall|j: int| 0 <= j < self@.buf.len() implies #[trigger] self@.buf[j]
                == overwrite(old(self)@.buf, 0, expect)[j] by {
                if j < 12 {
                    assert(expect[j] == (if j < 2 {
                        le16_bytes(size16)[j]
                    } else if j < 4 {
                        le16_bytes((65535 - size16) as u16)[j - 2]
                    } else {
                        rest@[j - 4]
                    }));
                }
            }
            assert(self@.buf =~= overwrite(old(self)@.buf, 0, expect));
        }
        self.packet_tx_seq = self.packet_tx_seq.wrapping_add(1);
        Ok(write_len)
    }

    /// Keeps a control response for the request that waits for it.
    pub fn handle_control_packet(&mut self, offset: usize, len: usize, status: i32)
        requires
            old(self).wf(),
        ensures
            final(self).wf(),
            final(self)@ == stall_effect(old(self)@, SdpcmPacket::Control { offset, len, status }),
    {
        self.pending_ioctl_resp = Some(PendingIoctlResp { buf: PendingBuf { offset, len }, status });
    }

    /// Accepts an ethernet frame of at least a header's length.
    pub fn handle_data_packet(&self, offset: usize, len: usize, interface: Interface) -> (r: Option<
        (usize, usize),
    >)
        requires
            self.wf(),
            len < 14 || offset + 14 <= SPID_BUF_LEN,
        ensures
            len < 14 ==> r is None,
            len >= 14 ==> r == Some((offset, len)),
    {
        if len < 14 {
            return None;
        }
        Some((offset, len))
    }

    /// One round of the wait for transmit credit: acts on the packet just
    /// polled and says whether to retry at once, send, or wait.
    pub fn sdpcm_stall_step(&mut self, pkt: SdpcmPacket) -> (r: Result<StallStep, DevError>)
        requires
            old(self).wf(),
            packet_readable(pkt),
        ensures
            final(self).wf(),
            final(self)@ == stall_effect(old(self)@, pkt),
            r == Ok::<StallStep, DevError>(stall_step_result(final(self)@, pkt)),
    {
        match pkt {
            SdpcmPacket::AsyncEvent { offset, len } => {
                self.handle_async_event(offset, len)?;
            },
            SdpcmPacket::Control { offset, len, status } => {
                self.handle_control_packet(offset, len, status);
                return Ok(StallStep::Retry);
            },
            _ => {},
        }
        if !self.needs_tx_credit() {
            Ok(StallStep::Done)
        } else {
            Ok(StallStep::Wait)
        }
    }

    /// One round of draining received frames: acts on the packet just
    /// polled and says whether to keep going, hand a frame up, or stop.
    pub fn poll_step(&mut self, pkt: SdpcmPacket) -> (r: Result<PollStep, DevError>)
        requires
            old(self).wf(),
            packet_readable(pkt),
        ensures
            final(self).wf(),
            final(self)@ == poll_effect(old(self)@, pkt),
            r == Ok::<PollStep, DevError>(poll_step_result(pkt)),
    {
        match pkt {
            SdpcmPacket::AsyncEvent { offset, len } => {
                self.handle_async_event(offset, len)?;
                Ok(PollStep::Continue)
            },
            SdpcmPacket::Data { offset, len, interface } => {
                if let Some((frame_offset, frame_len)) = self.handle_data_packet(
                    offset,
                    len,
                    interface,
                ) {
                    self.pending_rx = Some(PendingBuf { offset: frame_offset, len: frame_len });
                    return Ok(PollStep::Rx);
                }
                Ok(PollStep::Continue)
            },
            SdpcmPacket::Control { offset, len, status } => {
                self.handle_control_packet(offset, len, status);
                Ok(PollStep::Continue)
            },
            SdpcmPacket::Nothing => Ok(PollStep::Idle),
            SdpcmPacket::Unexpected(_) => Ok(PollStep::Continue),
        }
    }
}

} // verus!
