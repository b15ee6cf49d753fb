//! Values exchanged with the network service: bounded strings, the IPv4
//! configuration, DNS and ping outcomes, and the service's events and
//! errors.
use vstd::prelude::*;
use vstd::string::StringSliceAdditionalSpecFns;

verus! {

/// A string of at most `N` bytes.
pub struct FixedStr<const N: usize> {
    text: String,
}

impl<const N: usize> View for FixedStr<N> {
    type V = Seq<char>;

    closed spec fn view(&self) -> Seq<char> {
        self.text@
    }
}

impl<const N: usize> FixedStr<N> {
    #[verifier::type_invariant]
    spec fn fits(self) -> bool {
        vstd::utf8::encode_utf8(self.text@).len() <= N
    }

    /// Copies `s` when its UTF-8 encoding fits in `N` bytes.
    pub fn from_str(s: &str) -> (r: Option<Self>)
        ensures
            s.spec_bytes().len() <= N <==> r is Some,
            r matches Some(f) ==> f@ == s@,
    {
        if s.as_bytes().len() <= N {
            let text = s.to_owned();
            assert(vstd::utf8::encode_utf8(text@) == s.spec_bytes());
            Some(FixedStr { text })
        } else {
            None
        }
    }

    /// The text.
    pub fn as_str(&self) -> (s: &str)
        ensures
            s@ == self@,
    {
        self.text.as_str()
    }
}

/// An IPv4 address, most significant octet first.
#[derive(Clone, Copy, Debug, PartialEq, Eq, Structural)]
pub struct Ipv4Address(pub u8, pub u8, pub u8, pub u8);

/// The IPv4 configuration obtained by DHCP.
#[derive(Clone, Copy, Debug, PartialEq, Eq, Structural)]
pub struct Ipv4Config {
    pub address: Ipv4Address,
    pub prefix_len: u8,
    pub gateway: Option<Ipv4Address>,
    pub dns: Option<Ipv4Address>,
}

/// The outcome of a name lookup.
#[derive(Clone, Copy, Debug, PartialEq, Eq, Structural)]
pub enum DnsEvent {
    Resolved { addr: Ipv4Address },
    Timeout,
    Failed,
}

/// The outcome of one echo request.
#[derive(Clone, Copy, Debug, PartialEq, Eq, Structural)]
pub enum PingEvent {
    Reply { addr: Ipv4Address, sequence: u16, bytes: usize, rtt_ms: u32 },
    Timeout,
    NetworkDown,
}

/// Errors of the network stack.
#[derive(Clone, Copy, Debug, PartialEq, Eq, Structural)]
pub enum NetError {
    TimedOut,
    NetworkDown,
    ConnectionRefused,
    ConnectionReset,
    Closed,
    NoSocketAvailable,
    Other,
}

/// Errors of the WLAN service.
#[derive(Clone, Copy, Debug, PartialEq, Eq, Structural)]
pub enum WlanServiceError {
    Driver,
    WifiOff,
    Busy,
    Timeout,
    NotReady,
    Other,
}

/// Events the WLAN service reports.
#[derive(Clone, Copy, Debug, PartialEq, Eq, Structural)]
pub enum WlanServiceEvent {
    LinkConnected,
    LinkDisconnected,
    ConnectFailed,
    DhcpConfigured(Ipv4Config),
    DhcpDeconfigured,
    Dns(DnsEvent),
    Ping(PingEvent),
}

/// Results the network task reports about the IP layer.
#[derive(Clone, Copy, Debug, PartialEq, Eq, Structural)]
pub enum NetResult {
    DhcpConfigured(Ipv4Config),
    DhcpDeconfigured,
}

} // verus!
