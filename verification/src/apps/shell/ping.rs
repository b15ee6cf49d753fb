//! The `ping` command: what to ping, and when to stop.
use vstd::prelude::*;

use super::AppContext;
use crate::apps::text::{parse_ipv4, parse_ipv4_spec};
use crate::services::{DnsEvent, FixedStr, Ipv4Address, NetError};

verus! {

/// Echo requests sent per command.
pub const PING_COUNT: usize = 4;

/// How long each echo request waits for its reply.
pub const PING_TIMEOUT_MS: u64 = 3000;

/// The longest host name, in bytes.
pub const HOSTNAME_MAX: usize = 128;

/// What `ping` is asked to reach.
pub enum PingTarget {
    /// No argument.
    Usage,
    /// A dotted IPv4 address.
    Address(Ipv4Address),
    /// A host name to look up first.
    Resolve(FixedStr<128>),
    /// A host name longer than its limit.
    NameTooLong,
}

/// Reads the target of `ping` from its first argument (the others are
/// ignored): an address when it reads as one, otherwise a host name.
pub fn ping_target(ctx: &AppContext) -> (t: PingTarget)
    ensures
        ctx@.len() == 0 ==> t is Usage,
        ctx@.len() > 0 ==> match parse_ipv4_spec(ctx@[0]) {
            Some(a) => t == PingTarget::Address(a),
            None => if vstd::utf8::encode_utf8(ctx@[0]).len() > HOSTNAME_MAX {
                t is NameTooLong
            } else {
                t matches PingTarget::Resolve(h) && h@ == ctx@[0]
            },
        },
{
    let text = match ctx.arg(0) {
        Some(s) => s,
        None => {
            return PingTarget::Usage;
        },
    };
    match parse_ipv4(text) {
        Some(a) => PingTarget::Address(a),
        None => match FixedStr::<HOSTNAME_MAX>::from_str(text) {
            Some(h) => PingTarget::Resolve(h),
            None => PingTarget::NameTooLong,
        },
    }
}

/// The address a lookup gave, if it succeeded.
pub fn resolved_address(e: DnsEvent) -> (r: Option<Ipv4Address>)
    ensures
        r == match e {
            DnsEvent::Resolved { addr } => Some(addr),
            _ => None,
        },
{
    match e {
        DnsEvent::Resolved { addr } => Some(addr),
        _ => None,
    }
}

/// Whether the echo requests go on after one of them: after a reply
/// (`None`) or a timeout; any other error ends the command.
pub fn ping_goes_on(error: Option<NetError>) -> (r: bool)
    ensures
        r == match error {
            None => true,
            Some(NetError::TimedOut) => true,
            Some(_) => false,
        },
{
    match error {
        None => true,
        Some(NetError::TimedOut) => true,
        Some(_) => false,
    }
}

} // verus!
