//! The `wifi` command: reading its arguments and following the WLAN task's
//! results until the request is settled.
use vstd::prelude::*;
use vstd::string::StringSliceAdditionalSpecFns;

use super::AppContext;
use crate::apps::text::str_eq;
use crate::apps::wlan::{ConnectError, WlanCmd, WlanResult};
use crate::drivers::wlan::cyw43::WifiAuth;
use crate::services::{FixedStr, Ipv4Config, NetResult};

verus! {

/// The longest SSID, in bytes.
pub const SSID_MAX: usize = 32;

/// The longest passphrase, in bytes.
pub const PASSWORD_MAX: usize = 64;

/// What the arguments of `wifi` ask for.
pub enum WifiRequest {
    /// Send this command to the WLAN task and wait for its outcome.
    Run(WlanCmd),
    /// `wifi scan` with extra arguments.
    ScanUsage,
    /// `wifi connect` without an SSID or with more than a password after it.
    ConnectUsage,
    /// `wifi disconnect` with extra arguments.
    DisconnectUsage,
    /// The SSID is longer than its limit.
    SsidTooLong,
    /// The passphrase is longer than its limit.
    PasswordTooLong,
    /// `wifi`, or `wifi help`.
    Help,
    /// An unknown sub-command (the first argument).
    Unknown,
}

/// What `wifi` with arguments `a` asks for; `Run` carries the command to
/// send, checked separately by `connect_command_matches`.
pub open spec fn wifi_request_kind(a: Seq<Seq<char>>, r: WifiRequest) -> bool {
    if a.len() == 0 || a[0] == "help"@ {
        r is Help
    } else if a[0] == "scan"@ {
        if a.len() > 1 {
            r is ScanUsage
        } else {
            r matches WifiRequest::Run(WlanCmd::Scan)
        }
    } else if a[0] == "disconnect"@ {
        if a.len() > 1 {
            r is DisconnectUsage
        } else {
            r matches WifiRequest::Run(WlanCmd::Disconnect)
        }
    } else if a[0] == "connect"@ {
        if a.len() < 2 || a.len() > 3 {
            r is ConnectUsage
        } else if vstd::utf8::encode_utf8(a[1]).len() > SSID_MAX {
            r is SsidTooLong
        } else if a.len() == 3 && vstd::utf8::encode_utf8(a[2]).len() > PASSWORD_MAX {
            r is PasswordTooLong
        } else {
            r matches WifiRequest::Run(cmd) && connect_command_matches(a, cmd)
        }
    } else {
        r is Unknown
    }
}

/// The connect command for `wifi connect <ssid> [password]`: the SSID, the
/// passphrase if given, and WPA2-AES when there is one, open otherwise.
pub open spec fn connect_command_matches(a: Seq<Seq<char>>, cmd: WlanCmd) -> bool {
    match cmd {
        WlanCmd::Connect { ssid, password, auth } => {
            &&& ssid@ == a[1]
            &&& (a.len() == 3 ==> (password matches Some(p) && p@ == a[2]))
            &&& (a.len() == 2 ==> password is None)
            &&& auth == (if a.len() == 3 {
                WifiAuth::Wpa2AesPsk
            } else {
                WifiAuth::Open
            })
        },
        _ => false,
    }
}

/// Reads the arguments of `wifi`.
pub fn wifi_request(ctx: &AppContext) -> (r: WifiRequest)
    ensures
        wifi_request_kind(ctx@, r),
{
    let args = ctx.args();
    assert(crate::apps::text::str_views(args@) == ctx@);
    let n = args.len();
    if n == 0 {
        return WifiRequest::Help;
    }
    assert(args[0]@ == ctx@[0]);
    let cmd = args[0];
    if str_eq(cmd, "help") {
        WifiRequest::Help
    } else if str_eq(cmd, "scan") {
        if n > 1 {
            WifiRequest::ScanUsage
        } else {
            WifiRequest::Run(WlanCmd::Scan)
        }
    } else if str_eq(cmd, "disconnect") {
        if n > 1 {
            WifiRequest::DisconnectUsage
        } else {
            WifiRequest::Run(WlanCmd::Disconnect)
        }
    } else if str_eq(cmd, "connect") {
        if n < 2 || n > 3 {
            return WifiRequest::ConnectUsage;
        }
        assert(args[1]@ == ctx@[1]);
        let ssid = match FixedStr::<SSID_MAX>::from_str(args[1]) {
            Some(s) => s,
            None => {
                return WifiRequest::SsidTooLong;
            },
        };
        if n == 3 {
            assert(args[2]@ == ctx@[2]);
            match FixedStr::<PASSWORD_MAX>::from_str(args[2]) {
                Some(p) => WifiRequest::Run(
                    WlanCmd::Connect { ssid, password: Some(p), auth: WifiAuth::Wpa2AesPsk },
                ),
                None => WifiRequest::PasswordTooLong,
            }
        } else {
            WifiRequest::Run(WlanCmd::Connect { ssid, password: None, auth: WifiAuth::Open })
        }
    } else {
        WifiRequest::Unknown
    }
}

/// How a wait for a scan or a disconnect ends.
#[derive(Clone, Copy, Debug, PartialEq, Eq, Structural)]
pub enum WaitOutcome {
    /// The result belongs to another request: keep waiting.
    Pending,
    /// The request succeeded (for a scan, with this many networks).
    Done(usize),
    /// The request failed.
    Failed,
}

/// Follows the results while waiting for a scan.
pub fn scan_wait_step(r: WlanResult) -> (o: WaitOutcome)
    ensures
        o == match r {
            WlanResult::ScanCompleted { count } => WaitOutcome::Done(count),
            WlanResult::ScanFailed => WaitOutcome::Failed,
            _ => WaitOutcome::Pending,
        },
{
    match r {
        WlanResult::ScanCompleted { count } => WaitOutcome::Done(count),
        WlanResult::ScanFailed => WaitOutcome::Failed,
        _ => WaitOutcome::Pending,
    }
}

/// Follows the results while waiting for a disconnect.
pub fn disconnect_wait_step(r: WlanResult) -> (o: WaitOutcome)
    ensures
        o == match r {
            WlanResult::Disconnected => WaitOutcome::Done(0),
            WlanResult::DisconnectFailed => WaitOutcome::Failed,
            _ => WaitOutcome::Pending,
        },
{
    match r {
        WlanResult::Disconnected => WaitOutcome::Done(0),
        WlanResult::DisconnectFailed => WaitOutcome::Failed,
        _ => WaitOutcome::Pending,
    }
}

/// Progress of a connection while the command waits for it.
#[derive(Clone, Copy, Debug, PartialEq, Eq, Structural)]
pub enum ConnectProgress {
    /// Nothing new for this request.
    Waiting,
    /// The WLAN task started joining.
    Started,
    /// The link is up; the address is awaited.
    LinkUp,
    /// Joining failed: the wait ends.
    Failed(ConnectError),
    /// The link went down before an address came: the wait ends.
    Lost,
    /// An address was configured: the wait ends.
    Configured(Ipv4Config),
    /// The address was withdrawn: the wait ends.
    DhcpLost,
}

/// Whether the wait for a connection ends at `p`.
pub open spec fn connect_wait_over(p: ConnectProgress) -> bool {
    p is Failed || p is Lost || p is Configured || p is DhcpLost
}

/// The next state of a connection wait on a result of the WLAN task: the
/// link-up flag and what happened.
pub fn connect_wlan_step(link_up: bool, r: WlanResult) -> (s: (bool, ConnectProgress))
    ensures
        s == match r {
            WlanResult::ConnectStarted => (link_up, ConnectProgress::Started),
            WlanResult::LinkConnected => (true, ConnectProgress::LinkUp),
            WlanResult::ConnectFailed(e) => (link_up, ConnectProgress::Failed(e)),
            WlanResult::Disconnected => (link_up, ConnectProgress::Lost),
            _ => (link_up, ConnectProgress::Waiting),
        },
{
    match r {
        WlanResult::ConnectStarted => (link_up, ConnectProgress::Started),
        WlanResult::LinkConnected => (true, ConnectProgress::LinkUp),
        WlanResult::ConnectFailed(e) => (link_up, ConnectProgress::Failed(e)),
        WlanResult::Disconnected => (link_up, ConnectProgress::Lost),
        _ => (link_up, ConnectProgress::Waiting),
    }
}

/// What a result of the network task means for a connection wait: it is
/// read only once the link is up.
pub fn connect_net_step(link_up: bool, r: NetResult) -> (p: ConnectProgress)
    ensures
        !link_up ==> p == ConnectProgress::Waiting,
        link_up ==> p == match r {
            NetResult::DhcpConfigured(c) => ConnectProgress::Configured(c),
            NetResult::DhcpDeconfigured => ConnectProgress::DhcpLost,
        },
{
    if !link_up {
        return ConnectProgress::Waiting;
    }
    match r {
        NetResult::DhcpConfigured(c) => ConnectProgress::Configured(c),
        NetResult::DhcpDeconfigured => ConnectProgress::DhcpLost,
    }
}

} // verus!
