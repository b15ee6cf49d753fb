//! The `tcp` command: an echo test against a TCP server.
use vstd::prelude::*;

use super::AppContext;
use crate::apps::text::{parse_ipv4, parse_ipv4_spec, parse_u16, parse_u16_spec};
use crate::services::Ipv4Address;

verus! {

/// The message sent when none is given.
pub const DEFAULT_MESSAGE: &'static str = "miniRTOS";

/// The longest message, in bytes.
pub const MAX_MESSAGE_LEN: usize = 128;

/// What the arguments of `tcp` ask for.
pub enum TcpRequest<'a> {
    /// An address or a port is missing.
    Usage,
    /// The first argument is not a dotted IPv4 address.
    InvalidAddress,
    /// The port is not a number from 1 to 65535.
    InvalidPort,
    /// More than one word of message.
    ExtraArgs,
    /// The message is longer than its limit.
    MessageTooLong,
    /// Send the message to the address and port, and expect it back.
    Echo { addr: Ipv4Address, port: u16, message: &'a str },
}

/// Reads `tcp <ip-address> <port> [message]`.
pub fn tcp_request<'a>(args: &[&'a str]) -> (r: TcpRequest<'a>)
    ensures
        ({
            let a = crate::apps::text::str_views(args@);
            if a.len() == 0 {
                r is Usage
            } else if parse_ipv4_spec(a[0]) is None {
                r is InvalidAddress
            } else if a.len() == 1 {
                r is Usage
            } else if parse_u16_spec(a[1]) is None || parse_u16_spec(a[1]) == Some(0u16) {
                r is InvalidPort
            } else if a.len() > 3 {
                r is ExtraArgs
            } else {
                let msg = if a.len() == 3 {
                    a[2]
                } else {
                    DEFAULT_MESSAGE@
                };
                if vstd::utf8::encode_utf8(msg).len() > MAX_MESSAGE_LEN {
                    r is MessageTooLong
                } else {
                    r matches TcpRequest::Echo { addr, port, message } && Some(addr)
                        == parse_ipv4_spec(a[0]) && Some(port) == parse_u16_spec(a[1])
                        && message@ == msg
                }
            }
        }),
{
    let n = args.len();
    if n == 0 {
        return TcpRequest::Usage;
    }
    let addr = match parse_ipv4(args[0]) {
        Some(a) => a,
        None => {
            return TcpRequest::InvalidAddress;
        },
    };
    if n == 1 {
        return TcpRequest::Usage;
    }
    let port = match parse_u16(args[1]) {
        Some(p) if p != 0 => p,
        _ => {
            return TcpRequest::InvalidPort;
        },
    };
    if n > 3 {
        return TcpRequest::ExtraArgs;
    }
    let message: &'a str = if n == 3 {
        args[2]
    } else {
        DEFAULT_MESSAGE
    };
    if message.as_bytes().len() > MAX_MESSAGE_LEN {
        return TcpRequest::MessageTooLong;
    }
    TcpRequest::Echo { addr, port, message }
}

/// Whether the reply is the message sent.
pub fn echo_matches(reply: &[u8], payload: &[u8]) -> (r: bool)
    ensures
        r == (reply@ == payload@),
{
    if reply.len() != payload.len() {
        return false;
    }
    let mut i: usize = 0;
    while i < reply.len()
        invariant
            reply@.len() == payload@.len(),
            i <= reply@.len(),
            forall|j: int| 0 <= j < i ==> reply@[j] == payload@[j],
        decreases reply@.len() - i,
    {
        if reply[i] != payload[i] {
            return false;
        }
        i += 1;
    }
    assert(reply@ =~= payload@);
    true
}

} // verus!
