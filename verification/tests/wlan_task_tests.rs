use minirtos::apps::wlan::{command_result, service_event_result, wlan_gpio_wake, ConnectError, WlanCmd, WlanResult};
use minirtos::drivers::wlan::cyw43::WifiAuth;
use minirtos::services::{
    DnsEvent, FixedStr, Ipv4Address, Ipv4Config, PingEvent, WlanServiceError, WlanServiceEvent,
};

fn connect_cmd() -> WlanCmd {
    WlanCmd::Connect { ssid: FixedStr::<32>::from_str("home").unwrap(), password: None, auth: WifiAuth::Open }
}

#[test]
fn scan_reports_count_or_failure() {
    assert_eq!(command_result(&WlanCmd::Scan, Ok(5)), Some(WlanResult::ScanCompleted { count: 5 }));
    assert_eq!(command_result(&WlanCmd::Scan, Err(WlanServiceError::Busy)), Some(WlanResult::ScanFailed));
}

#[test]
fn connect_reports_start_or_failure() {
    assert_eq!(command_result(&connect_cmd(), Ok(0)), Some(WlanResult::ConnectStarted));
    assert_eq!(
        command_result(&connect_cmd(), Err(WlanServiceError::WifiOff)),
        Some(WlanResult::ConnectFailed(ConnectError::StartFailed))
    );
}

#[test]
fn other_commands_report_only_failures() {
    assert_eq!(command_result(&WlanCmd::Disconnect, Ok(0)), None);
    assert_eq!(command_result(&WlanCmd::Disconnect, Err(WlanServiceError::Driver)), Some(WlanResult::DisconnectFailed));
    let host = WlanCmd::Resolve(FixedStr::<128>::from_str("example.com").unwrap());
    assert_eq!(command_result(&host, Ok(0)), None);
    assert_eq!(command_result(&host, Err(WlanServiceError::NotReady)), Some(WlanResult::Dns(DnsEvent::Failed)));
    let ping = WlanCmd::Ping(Ipv4Address(192, 168, 1, 1));
    assert_eq!(command_result(&ping, Ok(0)), None);
    assert_eq!(command_result(&ping, Err(WlanServiceError::Timeout)), Some(WlanResult::PingFailed));
}

#[test]
fn every_service_event_gives_one_result() {
    let cfg = Ipv4Config { address: Ipv4Address(10, 0, 0, 5), prefix_len: 8, gateway: None, dns: None };
    assert_eq!(service_event_result(WlanServiceEvent::LinkConnected), (false, WlanResult::LinkConnected));
    assert_eq!(service_event_result(WlanServiceEvent::LinkDisconnected), (false, WlanResult::Disconnected));
    assert_eq!(
        service_event_result(WlanServiceEvent::ConnectFailed),
        (true, WlanResult::ConnectFailed(ConnectError::ConnectFailed))
    );
    assert_eq!(service_event_result(WlanServiceEvent::DhcpConfigured(cfg)), (false, WlanResult::DhcpConfigured(cfg)));
    assert_eq!(
        service_event_result(WlanServiceEvent::DhcpDeconfigured),
        (false, WlanResult::ConnectFailed(ConnectError::DhcpLost))
    );
    assert_eq!(service_event_result(WlanServiceEvent::Dns(DnsEvent::Timeout)), (false, WlanResult::Dns(DnsEvent::Timeout)));
    assert_eq!(
        service_event_result(WlanServiceEvent::Ping(PingEvent::NetworkDown)),
        (false, WlanResult::Ping(PingEvent::NetworkDown))
    );
}

#[test]
fn wake_pin_at_low_level() {
    assert!(wlan_gpio_wake(true, 15));
    assert!(!wlan_gpio_wake(true, 15 + 256));
    assert!(!wlan_gpio_wake(false, 15));
    assert!(!wlan_gpio_wake(true, 14));
    assert!(wlan_gpio_wake(true, 15 + 65536));
}

#[test]
fn fixed_strings_hold_at_most_their_capacity_in_bytes() {
    assert_eq!(FixedStr::<4>::from_str("abcd").map(|f| f.as_str().to_string()), Some("abcd".to_string()));
    assert!(FixedStr::<4>::from_str("abcde").is_none());
    assert!(FixedStr::<4>::from_str("ééé").is_none());
    assert!(FixedStr::<4>::from_str("éé").is_some());
    assert!(FixedStr::<0>::from_str("").is_some());
}
