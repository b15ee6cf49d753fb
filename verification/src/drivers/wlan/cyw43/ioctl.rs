use vstd::prelude::*;

use super::event::event_readable;
use super::sdpcm::{
    is_packet_readable, packet_readable, stall_effect, Interface, SdpcmPacket, IOCTL_HEADER_LEN,
    SDPCM_HEADER_LEN,
};
use super::{Cyw43Inner, Cyw43Model, PendingBuf, PendingIoctlResp, SPID_BUF_LEN};
use crate::error::DevError;
use crate::wire::{le32_bytes, overwrite, put_bytes, put_le32};

verus! {

/// Where ioctl payloads start in the transfer buffer.
pub const IOCTL_PAYLOAD_OFFSET: usize = 28;

/// Direction of an ioctl.
#[derive(Clone, Copy, Debug, PartialEq, Eq, Structural)]
pub enum SdpcmOp {
    Get,
    Put,
}

/// Number of an ioctl direction.
pub open spec fn op_number(k: SdpcmOp) -> u32 {
    if k == SdpcmOp::Get { 0u32 } else { 2u32 }
}

/// Number of an interface in ioctl flags.
pub open spec fn iface_number(i: Interface) -> u32 {
    match i {
        Interface::STA => 0u32,
        Interface::AP => 1u32,
        Interface::P2P => 2u32,
    }
}

impl SdpcmOp {
    pub fn number(self) -> (n: u32)
        ensures
            n == op_number(self),
    {
        match self {
            SdpcmOp::Get => 0,
            SdpcmOp::Put => 2,
        }
    }
}

/// Firmware commands.
#[derive(Clone, Copy, Debug, PartialEq, Eq, Structural)]
pub enum WlcCmd {
    Up,
    SetInfra,
    SetAuth,
    GetBssid,
    GetSsid,
    SetSsid,
    SetChannel,
    Disassoc,
    GetAntDiv,
    SetAntDiv,
    SetDtimPrd,
    GetPm,
    SetPm,
    SetGMode,
    SetWsec,
    SetBand,
    GetAssocList,
    SetWpaAuth,
    GetVar,
    SetVar,
    SetWsecPmk,
}

/// Command number of each firmware command.
pub open spec fn wlc_number(c: WlcCmd) -> u32 {
    match c {
        WlcCmd::Up => 2,
        WlcCmd::SetInfra => 20,
        WlcCmd::SetAuth => 22,
        WlcCmd::GetBssid => 23,
        WlcCmd::GetSsid => 25,
        WlcCmd::SetSsid => 26,
        WlcCmd::SetChannel => 30,
        WlcCmd::Disassoc => 52,
        WlcCmd::GetAntDiv => 63,
        WlcCmd::SetAntDiv => 64,
        WlcCmd::SetDtimPrd => 78,
        WlcCmd::GetPm => 85,
        WlcCmd::SetPm => 86,
        WlcCmd::SetGMode => 110,
        WlcCmd::SetWsec => 134,
        WlcCmd::SetBand => 142,
        WlcCmd::GetAssocList => 159,
        WlcCmd::SetWpaAuth => 165,
        WlcCmd::GetVar => 262,
        WlcCmd::SetVar => 263,
        WlcCmd::SetWsecPmk => 268,
    }
}

impl WlcCmd {
    pub fn number(self) -> (n: u32)
        ensures
            n == wlc_number(self),
    {
        match self {
            WlcCmd::Up => 2,
            WlcCmd::SetInfra => 20,
            WlcCmd::SetAuth => 22,
            WlcCmd::GetBssid => 23,
            WlcCmd::GetSsid => 25,
            WlcCmd::SetSsid => 26,
            WlcCmd::SetChannel => 30,
            WlcCmd::Disassoc => 52,
            WlcCmd::GetAntDiv => 63,
            WlcCmd::SetAntDiv => 64,
            WlcCmd::SetDtimPrd => 78,
            WlcCmd::GetPm => 85,
            WlcCmd::SetPm => 86,
            WlcCmd::SetGMode => 110,
            WlcCmd::SetWsec => 134,
            WlcCmd::SetBand => 142,
            WlcCmd::GetAssocList => 159,
            WlcCmd::SetWpaAuth => 165,
            WlcCmd::GetVar => 262,
            WlcCmd::SetVar => 263,
            WlcCmd::SetWsecPmk => 268,
        }
    }
}

/// The flags word of an ioctl: request id in the top half, interface from
/// bit 12, direction in the low bits.
pub open spec fn ioctl_flags(id: u8, kind: u32, iface: u32) -> int {
    id * 65536 + iface * 4096 + kind
}

/// The CDC header of an ioctl request.
pub open spec fn ioctl_header_bytes(cmd: u32, payload_len: int, flags: u32) -> Seq<u8> {
    le32_bytes(cmd) + le32_bytes((payload_len % 65536) as u32) + le32_bytes(flags) + le32_bytes(0)
}

/// The little-endian encodings of `vals`, one after the other.
pub open spec fn le32_seq(vals: Seq<u32>) -> Seq<u8>
    decreases vals.len(),
{
    if vals.len() == 0 {
        Seq::empty()
    } else {
        le32_seq(vals.drop_last()) + le32_bytes(vals.last())
    }
}

/// The encoding of `n` words is `4 * n` bytes long.
pub proof fn lemma_le32_seq_len(vals: Seq<u32>)
    ensures
        le32_seq(vals).len() == 4 * vals.len(),
    decreases vals.len(),
{
    if vals.len() > 0 {
        lemma_le32_seq_len(vals.drop_last());
    }
}

/// The payload naming an iovar: its name, a terminating zero, then `data`.
pub open spec fn iovar_bytes(name: Seq<u8>, data: Seq<u8>) -> Seq<u8> {
    name + seq![0u8] + data
}

/// What to do next while waiting for an ioctl response.
#[derive(Clone, Copy, Debug, PartialEq, Eq, Structural)]
pub enum IoctlStep {
    /// The response arrived and its payload was copied into place.
    Finished,
    /// Keep waiting unless the time is up.
    Continue,
}

/// The buffer after a response of `resp_len` bytes at `resp_offset` has been
/// copied (as far as `payload_len` bytes) to `payload_offset`.
pub open spec fn resp_copied(buf: Seq<u8>, resp_offset: int, resp_len: int, payload_offset: int, payload_len: int) -> Seq<u8> {
    let n = if payload_len < resp_len { payload_len } else { resp_len };
    overwrite(buf, payload_offset, buf.subrange(resp_offset, resp_offset + n))
}

/// A response copied to `payload_offset` stays inside the buffer.
pub open spec fn resp_fits(resp_offset: int, resp_len: int, payload_offset: int, payload_len: int) -> bool {
    let n = if payload_len < resp_len { payload_len } else { resp_len };
    resp_offset + n <= SPID_BUF_LEN && payload_offset + n <= SPID_BUF_LEN
}

/// The state after `pkt` arrived while waiting for an ioctl response.
pub open spec fn ioctl_wait_effect(m: Cyw43Model, pkt: SdpcmPacket, payload_offset: int, payload_len: int) -> Cyw43Model {
    match pkt {
        SdpcmPacket::Control { offset, len, status } => if status == 0 {
            Cyw43Model {
                buf: resp_copied(m.buf, offset as int, len as int, payload_offset, payload_len),
                ..m
            }
        } else {
            m
        },
        _ => stall_effect(m, pkt),
    }
}

/// The answer of the wait for an ioctl response after `pkt`.
pub open spec fn ioctl_wait_result(pkt: SdpcmPacket) -> Result<IoctlStep, DevError> {
    match pkt {
        SdpcmPacket::Control { status, .. } => if status == 0 {
            Ok(IoctlStep::Finished)
        } else {
            Err(DevError::Io)
        },
        _ => Ok(IoctlStep::Continue),
    }
}

/// A packet can be acted on while waiting for an ioctl response.
pub open spec fn ioctl_packet_ok(pkt: SdpcmPacket, payload_offset: int, payload_len: int) -> bool {
    match pkt {
        SdpcmPacket::Control { offset, len, status } => status != 0 || resp_fits(
            offset as int,
            len as int,
            payload_offset,
            payload_len,
        ),
        _ => packet_readable(pkt),
    }
}

/// Whether `pkt` can be acted on while waiting for an ioctl response whose
/// payload goes to `payload_offset`.
pub fn is_ioctl_packet_ok(pkt: SdpcmPacket, payload_offset: usize, payload_len: usize) -> (r: bool)
    ensures
        r == ioctl_packet_ok(pkt, payload_offset as int, payload_len as int),
{
    match pkt {
        SdpcmPacket::Control { offset, len, status } => {
            let n = if payload_len < len {
                payload_len
            } else {
                len
            };
            status != 0 || (offset <= SPID_BUF_LEN && n <= SPID_BUF_LEN - offset && payload_offset
                <= SPID_BUF_LEN && n <= SPID_BUF_LEN - payload_offset)
        },
        _ => is_packet_readable(pkt),
    }
}

/// Copies `n` bytes from `src` to `dst` inside `b`, as `copy_within` does.
fn copy_within(b: &mut Vec<u8>, src: usize, n: usize, dst: usize)
    requires
        src + n <= old(b).len(),
        dst + n <= old(b).len(),
    ensures
        final(b)@ == overwrite(old(b)@, dst as int, old(b)@.subrange(src as int, src + n)),
{
    let mut tmp: Vec<u8> = Vec::new();
    let mut i: usize = 0;
    while i < n
        invariant
            src + n <= b.len(),
            i <= n,
            b@ == old(b)@,
            tmp@ == old(b)@.subrange(src as int, src + i),
        decreases n - i,
    {
        tmp.push(b[src + i]);
        i = i + 1;
        assert(tmp@ =~= old(b)@.subrange(src as int, src + i));
    }
    put_bytes(b, dst, tmp.as_slice());
}

impl Cyw43Inner {
    /// Writes the CDC header of an ioctl request behind the SDPCM header,
    /// with a fresh request id; requests whose payload would not fit the
    /// buffer are refused.
    pub fn send_ioctl_header(
        &mut self,
        kind: SdpcmOp,
        cmd: WlcCmd,
        payload_offset: usize,
        payload_len: usize,
        iface: Interface,
    ) -> (r: Result<(), DevError>)
        requires
            old(self).wf(),
            payload_offset == SDPCM_HEADER_LEN + IOCTL_HEADER_LEN,
            payload_len <= usize::MAX - 28,
        ensures
            final(self).wf(),
            r == send_ioctl_result(payload_len as int),
            final(self)@ == send_ioctl_state(old(self)@, kind, cmd, payload_len as int, iface),
    {
        if SDPCM_HEADER_LEN + IOCTL_HEADER_LEN + payload_len > SPID_BUF_LEN {
            return Err(DevError::InvalidArg);
        }
        self.requested_ioctl_id = self.requested_ioctl_id.wrapping_add(1);
        let id = self.requested_ioctl_id as u32;
        let flags = id * 65536 + iface.number() * 4096 + kind.number();
        put_le32(&mut self.spid_buf, SDPCM_HEADER_LEN, cmd.number());
        put_le32(&mut self.spid_buf, SDPCM_HEADER_LEN + 4, (payload_len as u32) % 65536);
        put_le32(&mut self.spid_buf, SDPCM_HEADER_LEN + 8, flags);
        put_le32(&mut self.spid_buf, SDPCM_HEADER_LEN + 12, 0);
        proof {
            let h = ioctl_header_bytes(
                wlc_number(cmd),
                payload_len as int,
                ioctl_flags(self@.ioctl_id, op_number(kind), iface_number(iface)) as u32,
            );
            assert((payload_len as u32) % 65536 == (payload_len as int % 65536) as u32);
            assert(self@.buf =~= overwrite(old(self)@.buf, SDPCM_HEADER_LEN as int, h));
        }
        Ok(())
    }

    /// Takes the ioctl response stored while waiting for transmit credit.
    pub fn take_pending_ioctl(&mut self) -> (r: Option<PendingIoctlResp>)
        requires
            old(self).wf(),
        ensures
            final(self).wf(),
            r == old(self)@.pending_ioctl,
            final(self)@ == without_pending_ioctl(old(self)@),
    {
        self.pending_ioctl_resp.take()
    }

    /// Completes an ioctl: a failed status is an I/O error; otherwise the
    /// response payload (as much of it as the request asked for) is copied
    /// to where the request's payload was.
    pub fn finish_ioctl_resp(
        &mut self,
        cmd: WlcCmd,
        payload_offset: usize,
        payload_len: usize,
        resp: PendingIoctlResp,
    ) -> (r: Result<(), DevError>)
        requires
            old(self).wf(),
            resp.status != 0 || resp_fits(
                resp.buf.offset as int,
                resp.buf.len as int,
                payload_offset as int,
                payload_len as int,
            ),
        ensures
            final(self).wf(),
            r == finish_result(resp.status),
            final(self)@ == finish_state(old(self)@, resp, payload_offset as int, payload_len as int),
    {
        if resp.status != 0 {
            return Err(DevError::Io);
        }
        let copy_len = if payload_len < resp.buf.len {
            payload_len
        } else {
            resp.buf.len
        };
        copy_within(&mut self.spid_buf, resp.buf.offset, copy_len, payload_offset);
        Ok(())
    }

    /// One round of the wait for an ioctl response: a response completes
    /// (or fails) the ioctl, events are acted on, other frames are dropped.
    pub fn ioctl_step(&mut self, cmd: WlcCmd, pkt: SdpcmPacket, payload_offset: usize, payload_len: usize) -> (r: Result<IoctlStep, DevError>)
        requires
            old(self).wf(),
            ioctl_packet_ok(pkt, payload_offset as int, payload_len as int),
        ensures
            final(self).wf(),
            r == ioctl_wait_result(pkt),
            final(self)@ == ioctl_wait_effect(old(self)@, pkt, payload_offset as int, payload_len as int),
    {
        match pkt {
            SdpcmPacket::Control { offset, len, status } => {
                if status != 0 {
                    return Err(DevError::Io);
                }
                self.finish_ioctl_resp(
                    cmd,
                    payload_offset,
                    payload_len,
                    PendingIoctlResp { buf: PendingBuf { offset, len }, status },
                )?;
                Ok(IoctlStep::Finished)
            },
            SdpcmPacket::AsyncEvent { offset, len } => {
                self.handle_async_event(offset, len)?;
                Ok(IoctlStep::Continue)
            },
            _ => Ok(IoctlStep::Continue),
        }
    }
}

/// Requests whose payload does not fit behind the headers are refused.
pub open spec fn send_ioctl_result(payload_len: int) -> Result<(), DevError> {
    if SDPCM_HEADER_LEN + IOCTL_HEADER_LEN + payload_len > SPID_BUF_LEN {
        Err(DevError::InvalidArg)
    } else {
        Ok(())
    }
}

/// The state after an ioctl request header was (or was not) written.
pub open spec fn send_ioctl_state(m: Cyw43Model, kind: SdpcmOp, cmd: WlcCmd, payload_len: int, iface: Interface) -> Cyw43Model {
    if SDPCM_HEADER_LEN + IOCTL_HEADER_LEN + payload_len > SPID_BUF_LEN {
        m
    } else {
        ioctl_header_state(m, kind, cmd, payload_len, iface)
    }
}

/// The state with no ioctl response kept.
pub open spec fn without_pending_ioctl(m: Cyw43Model) -> Cyw43Model {
    Cyw43Model { pending_ioctl: None, ..m }
}

/// A response with a failed status is an I/O error.
pub open spec fn finish_result(status: i32) -> Result<(), DevError> {
    if status != 0 {
        Err(DevError::Io)
    } else {
        Ok(())
    }
}

/// The state after an ioctl response has been collected.
pub open spec fn finish_state(m: Cyw43Model, resp: PendingIoctlResp, payload_offset: int, payload_len: int) -> Cyw43Model {
    if resp.status != 0 {
        m
    } else {
        Cyw43Model {
            buf: resp_copied(m.buf, resp.buf.offset as int, resp.buf.len as int, payload_offset, payload_len),
            ..m
        }
    }
}

/// The state after an ioctl header has been written with a fresh id.
pub open spec fn ioctl_header_state(m: Cyw43Model, kind: SdpcmOp, cmd: WlcCmd, payload_len: int, iface: Interface) -> Cyw43Model {
    let id = m.ioctl_id.wrapping_add(1);
    Cyw43Model {
        ioctl_id: id,
        buf: overwrite(
            m.buf,
            SDPCM_HEADER_LEN as int,
            ioctl_header_bytes(
                wlc_number(cmd),
                payload_len,
                ioctl_flags(id, op_number(kind), iface_number(iface)) as u32,
            ),
        ),
        ..m
    }
}

} // verus!
