//! The network test tasks: the frames injected into the loopback device
//! and what is reported about each frame the stack sends.
use vstd::prelude::*;

use crate::wire::be16;

verus! {

/// Ethertype of ARP.
pub const ETHERTYPE_ARP: u16 = 0x0806;

/// Ethertype of IPv4.
pub const ETHERTYPE_IPV4: u16 = 0x0800;

/// What is reported about a sent frame.
#[derive(Clone, Copy, Debug, PartialEq, Eq, Structural)]
pub struct TxFrameInfo {
    /// The ethertype, for a frame with a whole Ethernet header.
    pub ethertype: Option<u16>,
    /// The opcode, for an ARP frame.
    pub arp_opcode: Option<u16>,
    /// The protocol, for an IPv4 frame.
    pub ipv4_protocol: Option<u8>,
    /// The message type, for an ICMP frame.
    pub message_type: Option<u8>,
}

/// What is reported about `d`: the ethertype of any frame of 14 bytes or
/// more; the ARP opcode, or the IPv4 protocol and the ICMP type, of a frame
/// of 42 bytes or more.
pub open spec fn tx_frame_info_spec(d: Seq<u8>) -> TxFrameInfo {
    let long = d.len() >= 42;
    let arp = long && d[12] == 0x08 && d[13] == 0x06;
    let ipv4 = long && d[12] == 0x08 && d[13] == 0x00;
    TxFrameInfo {
        ethertype: if d.len() >= 14 {
            Some(be16(d, 12) as u16)
        } else {
            None
        },
        arp_opcode: if arp {
            Some(be16(d, 20) as u16)
        } else {
            None
        },
        ipv4_protocol: if ipv4 {
            Some(d[23])
        } else {
            None
        },
        message_type: if ipv4 && d[23] == 1 {
            Some(d[34])
        } else {
            None
        },
    }
}

/// Inspects a frame sent by the stack.
pub fn tx_frame_info(d: &[u8]) -> (r: TxFrameInfo)
    ensures
        r == tx_frame_info_spec(d@),
{
    let n = d.len();
    let ethertype = if n >= 14 {
        Some((d[12] as u16) * 256 + d[13] as u16)
    } else {
        None
    };
    let long = n >= 42;
    let arp = long && d[12] == 0x08 && d[13] == 0x06;
    let ipv4 = long && d[12] == 0x08 && d[13] == 0x00;
    let arp_opcode = if arp {
        Some((d[20] as u16) * 256 + d[21] as u16)
    } else {
        None
    };
    let ipv4_protocol = if ipv4 {
        Some(d[23])
    } else {
        None
    };
    let message_type = if ipv4 && d[23] == 1 {
        Some(d[34])
    } else {
        None
    };
    TxFrameInfo { ethertype, arp_opcode, ipv4_protocol, message_type }
}

/// The one's-complement sum of the big-endian half-words of `h[0..2k]`.
pub open spec fn ones_sum(h: Seq<u8>, k: nat) -> nat
    decreases k,
{
    if k == 0 {
        0
    } else {
        let s = ones_sum(h, (k - 1) as nat) + be16(h, 2 * (k - 1));
        (s % 65536 + s / 65536) as nat
    }
}

/// An IPv4 header of 20 bytes whose checksum field is right: the sum of its
/// half-words is all ones.
pub open spec fn ipv4_header_checksum_ok(h: Seq<u8>) -> bool {
    h.len() >= 20 && ones_sum(h, 10) == 0xffff
}

/// The MAC address of the device under test.
pub open spec fn device_mac() -> Seq<u8> {
    seq![0x02u8, 0x00, 0x00, 0x00, 0x00, 0x01]
}

/// The MAC address of the simulated peer.
pub open spec fn peer_mac() -> Seq<u8> {
    seq![0x02u8, 0x00, 0x00, 0x00, 0x00, 0x02]
}

/// 192.168.1.10, the simulated peer.
pub open spec fn peer_ip() -> Seq<u8> {
    seq![192u8, 168, 1, 10]
}

/// 192.168.1.100, the device under test.
pub open spec fn device_ip() -> Seq<u8> {
    seq![192u8, 168, 1, 100]
}

/// The ARP request of the peer: Ethernet broadcast from the peer, then
/// hardware type Ethernet, protocol IPv4, address sizes 6 and 4, opcode
/// request, the peer's MAC and IP, an unknown target MAC and the device's
/// IP.
pub open spec fn arp_request_bytes() -> Seq<u8> {
    seq![0xffu8, 0xff, 0xff, 0xff, 0xff, 0xff] + peer_mac() + seq![0x08u8, 0x06]
        + seq![0x00u8, 0x01, 0x08, 0x00, 0x06, 0x04, 0x00, 0x01] + peer_mac() + peer_ip()
        + seq![0x00u8, 0x00, 0x00, 0x00, 0x00, 0x00] + device_ip()
}

/// The echo request of the peer: Ethernet from the peer to the device, an
/// IPv4 header (version 4, 20 bytes, total length 28, identification
/// 0x1234, TTL 64, ICMP, checksum 0xe4ee, peer to device), the ICMP echo
/// request (type 8, code 0, checksum 0xf7fd, identifier 1, sequence 1),
/// and zeros up to the 60-byte Ethernet minimum.
pub open spec fn echo_request_bytes() -> Seq<u8> {
    device_mac() + peer_mac() + seq![0x08u8, 0x00]
        + seq![0x45u8, 0x00, 0x00, 0x1c, 0x12, 0x34, 0x00, 0x00, 64, 1, 0xe4, 0xee] + peer_ip()
        + device_ip() + seq![8u8, 0, 0xf7, 0xfd, 0x00, 0x01, 0x00, 0x01] + Seq::new(
        18,
        |i: int| 0u8,
    )
}

/// The ARP request injected into the loopback device: who has
/// 192.168.1.100, asked by 192.168.1.10 from 02:00:00:00:00:02.
pub fn arp_request_frame() -> (f: [u8; 42])
    ensures
        f@ == arp_request_bytes(),
        f@.len() == 42,
        be16(f@, 12) == ETHERTYPE_ARP,
        be16(f@, 14) == 1,
        be16(f@, 16) == ETHERTYPE_IPV4,
        be16(f@, 20) == 1,
        f@.subrange(0, 6) == seq![0xffu8, 0xff, 0xff, 0xff, 0xff, 0xff],
        f@.subrange(28, 32) == seq![192u8, 168, 1, 10],
        f@.subrange(38, 42) == seq![192u8, 168, 1, 100],
{
    let f: [u8; 42] = [
        0xff, 0xff, 0xff, 0xff, 0xff, 0xff, 0x02, 0x00, 0x00, 0x00, 0x00, 0x02, 0x08, 0x06,
        0x00, 0x01, 0x08, 0x00, 0x06, 0x04, 0x00, 0x01, 0x02, 0x00, 0x00, 0x00, 0x00, 0x02,
        192, 168, 1, 10, 0x00, 0x00, 0x00, 0x00, 0x00, 0x00, 192, 168, 1, 100,
    ];
    assert(f@.subrange(0, 6) =~= seq![0xffu8, 0xff, 0xff, 0xff, 0xff, 0xff]);
    assert(f@.subrange(28, 32) =~= seq![192u8, 168, 1, 10]);
    assert(f@.subrange(38, 42) =~= seq![192u8, 168, 1, 100]);
    assert(f@ =~= arp_request_bytes());
    f
}

/// The ICMP echo request injected into the loopback device, from
/// 192.168.1.10 to 192.168.1.100, padded to the Ethernet minimum; its IPv4
/// header checksum is right.
pub fn echo_request_frame() -> (f: [u8; 60])
    ensures
        f@ == echo_request_bytes(),
        f@.len() == 60,
        be16(f@, 12) == ETHERTYPE_IPV4,
        f@[23] == 1,
        f@[34] == 8,
        f@.subrange(26, 30) == seq![192u8, 168, 1, 10],
        f@.subrange(30, 34) == seq![192u8, 168, 1, 100],
        ipv4_header_checksum_ok(f@.subrange(14, 34)),
        ones_sum(f@.subrange(34, 42), 4) == 0xffff,
{
    let f: [u8; 60] = [
        0x02, 0x00, 0x00, 0x00, 0x00, 0x01, 0x02, 0x00, 0x00, 0x00, 0x00, 0x02, 0x08, 0x00,
        0x45, 0x00, 0x00, 0x1c, 0x12, 0x34, 0x00, 0x00, 64, 1, 0xe4, 0xee, 192, 168, 1, 10,
        192, 168, 1, 100, 8, 0, 0xf7, 0xfd, 0x00, 0x01, 0x00, 0x01, 0, 0, 0, 0, 0, 0, 0, 0, 0,
        0, 0, 0, 0, 0, 0, 0, 0, 0,
    ];
    assert(f@.subrange(26, 30) =~= seq![192u8, 168, 1, 10]);
    assert(f@.subrange(30, 34) =~= seq![192u8, 168, 1, 100]);
    let ghost h = f@.subrange(14, 34);
    assert(be16(h, 0) == 0x4500);
    assert(be16(h, 2) == 0x001c);
    assert(be16(h, 4) == 0x1234);
    assert(be16(h, 6) == 0);
    assert(be16(h, 8) == 0x4001);
    assert(be16(h, 10) == 0xe4ee);
    assert(be16(h, 12) == 0xc0a8);
    assert(be16(h, 14) == 0x010a);
    assert(be16(h, 16) == 0xc0a8);
    assert(be16(h, 18) == 0x0164);
    assert(ones_sum(h, 0) == 0);
    assert(ones_sum(h, 1) == 0x4500);
    assert(ones_sum(h, 2) == 0x451c);
    assert(ones_sum(h, 3) == 0x5750);
    assert(ones_sum(h, 4) == 0x5750);
    assert(ones_sum(h, 5) == 0x9751);
    assert(ones_sum(h, 6) == 0x7c40);
    assert(ones_sum(h, 7) == 0x3ce9);
    assert(ones_sum(h, 8) == 0x3df3);
    assert(ones_sum(h, 9) == 0xfe9b);
    assert(ones_sum(h, 10) == 0xffff);
    let ghost m = f@.subrange(34, 42);
    assert(be16(m, 0) == 0x0800);
    assert(be16(m, 2) == 0xf7fd);
    assert(be16(m, 4) == 1);
    assert(be16(m, 6) == 1);
    assert(ones_sum(m, 0) == 0);
    assert(ones_sum(m, 1) == 0x0800);
    assert(ones_sum(m, 2) == 0xfffd);
    assert(ones_sum(m, 3) == 0xfffe);
    assert(ones_sum(m, 4) == 0xffff);
    assert(f@ =~= echo_request_bytes());
    f
}

} // verus!
