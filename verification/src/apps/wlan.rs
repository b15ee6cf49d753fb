//! The WLAN task: the commands it takes, the results it reports, and what it
//! reports for each outcome of the service and each service event.
use vstd::prelude::*;

use crate::drivers::gpio::rp235x_gpio::decode_irq_event_data;
use crate::drivers::wlan::cyw43::WifiAuth;
use crate::services::{
    DnsEvent, FixedStr, Ipv4Address, Ipv4Config, PingEvent, WlanServiceError, WlanServiceEvent,
};

verus! {

/// The most service events handled per pass of the task loop.
pub const MAX_EVENTS_PER_PASS: usize = 8;

/// The GPIO pin whose falling level marks pending WLAN work.
pub const WLAN_WAKE_PIN: usize = 15;

/// A request to the WLAN task.
pub enum WlanCmd {
    Scan,
    Connect { ssid: FixedStr<32>, password: Option<FixedStr<64>>, auth: WifiAuth },
    Disconnect,
    Resolve(FixedStr<128>),
    Ping(Ipv4Address),
}

/// Why a connection did not come up or went away.
#[derive(Clone, Copy, Debug, PartialEq, Eq, Structural)]
pub enum ConnectError {
    StartFailed,
    ConnectFailed,
    LinkLost,
    DhcpLost,
}

/// What the WLAN task reports back.
#[derive(Clone, Copy, Debug, PartialEq, Eq, Structural)]
pub enum WlanResult {
    ScanCompleted { count: usize },
    ScanFailed,
    ConnectStarted,
    LinkConnected,
    DhcpConfigured(Ipv4Config),
    ConnectFailed(ConnectError),
    Disconnected,
    DisconnectFailed,
    Dns(DnsEvent),
    Ping(PingEvent),
    PingFailed,
}

/// The result reported for a command, given what the service call
/// returned (for a scan, the number of networks found).
pub open spec fn command_result_spec(cmd: &WlanCmd, outcome: Result<usize, WlanServiceError>) -> Option<
    WlanResult,
> {
    match cmd {
        WlanCmd::Scan => Some(
            match outcome {
                Ok(n) => WlanResult::ScanCompleted { count: n },
                Err(_) => WlanResult::ScanFailed,
            },
        ),
        WlanCmd::Connect { .. } => Some(
            match outcome {
                Ok(_) => WlanResult::ConnectStarted,
                Err(_) => WlanResult::ConnectFailed(ConnectError::StartFailed),
            },
        ),
        WlanCmd::Disconnect => match outcome {
            Ok(_) => None,
            Err(_) => Some(WlanResult::DisconnectFailed),
        },
        WlanCmd::Resolve(_) => match outcome {
            Ok(_) => None,
            Err(_) => Some(WlanResult::Dns(DnsEvent::Failed)),
        },
        WlanCmd::Ping(_) => match outcome {
            Ok(_) => None,
            Err(_) => Some(WlanResult::PingFailed),
        },
    }
}

/// What the task reports once the service has carried out `cmd`: a scan
/// always reports its count or its failure, a connect always reports that
/// it started or failed to start; a disconnect, lookup or ping reports only
/// a failure to start, their outcome arriving later as a service event.
pub fn command_result(cmd: &WlanCmd, outcome: Result<usize, WlanServiceError>) -> (r: Option<
    WlanResult,
>)
    ensures
        r == command_result_spec(cmd, outcome),
{
    match cmd {
        WlanCmd::Scan => Some(
            match outcome {
                Ok(n) => WlanResult::ScanCompleted { count: n },
                Err(_) => WlanResult::ScanFailed,
            },
        ),
        WlanCmd::Connect { .. } => Some(
            match outcome {
                Ok(_) => WlanResult::ConnectStarted,
                Err(_) => WlanResult::ConnectFailed(ConnectError::StartFailed),
            },
        ),
        WlanCmd::Disconnect => match outcome {
            Ok(_) => None,
            Err(_) => Some(WlanResult::DisconnectFailed),
        },
        WlanCmd::Resolve(_) => match outcome {
            Ok(_) => None,
            Err(_) => Some(WlanResult::Dns(DnsEvent::Failed)),
        },
        WlanCmd::Ping(_) => match outcome {
            Ok(_) => None,
            Err(_) => Some(WlanResult::PingFailed),
        },
    }
}

/// The result reported for a service event, and whether the driver is to
/// be disconnected first (after a failed connection attempt).
pub open spec fn service_event_result_spec(event: WlanServiceEvent) -> (bool, WlanResult) {
    match event {
        WlanServiceEvent::LinkConnected => (false, WlanResult::LinkConnected),
        WlanServiceEvent::LinkDisconnected => (false, WlanResult::Disconnected),
        WlanServiceEvent::ConnectFailed => (
            true,
            WlanResult::ConnectFailed(ConnectError::ConnectFailed),
        ),
        WlanServiceEvent::DhcpConfigured(c) => (false, WlanResult::DhcpConfigured(c)),
        WlanServiceEvent::DhcpDeconfigured => (
            false,
            WlanResult::ConnectFailed(ConnectError::DhcpLost),
        ),
        WlanServiceEvent::Dns(e) => (false, WlanResult::Dns(e)),
        WlanServiceEvent::Ping(e) => (false, WlanResult::Ping(e)),
    }
}

/// How a service event is passed on: every event gives exactly one result.
pub fn service_event_result(event: WlanServiceEvent) -> (r: (bool, WlanResult))
    ensures
        r == service_event_result_spec(event),
{
    match event {
        WlanServiceEvent::LinkConnected => (false, WlanResult::LinkConnected),
        WlanServiceEvent::LinkDisconnected => (false, WlanResult::Disconnected),
        WlanServiceEvent::ConnectFailed => (
            true,
            WlanResult::ConnectFailed(ConnectError::ConnectFailed),
        ),
        WlanServiceEvent::DhcpConfigured(c) => (false, WlanResult::DhcpConfigured(c)),
        WlanServiceEvent::DhcpDeconfigured => (
            false,
            WlanResult::ConnectFailed(ConnectError::DhcpLost),
        ),
        WlanServiceEvent::Dns(e) => (false, WlanResult::Dns(e)),
        WlanServiceEvent::Ping(e) => (false, WlanResult::Ping(e)),
    }
}

/// Whether a device interrupt marks pending WLAN work: a GPIO event of the
/// wake pin at low level.
pub fn wlan_gpio_wake(is_gpio_event: bool, data: usize) -> (r: bool)
    ensures
        r == (is_gpio_event && data % 256 == WLAN_WAKE_PIN && (data / 256) % 256 == 0),
{
    if !is_gpio_event {
        return false;
    }
    let (pin, level) = decode_irq_event_data(data);
    pin == WLAN_WAKE_PIN && level == 0
}

} // verus!
