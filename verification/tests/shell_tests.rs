use minirtos::apps::shell::i2c::{i2c_request, scan_addresses, I2cRequest, I2C_SCAN_END, I2C_SCAN_FIRST};
use minirtos::apps::shell::ping::{ping_goes_on, ping_target, resolved_address, PingTarget};
use minirtos::apps::shell::tcp::{echo_matches, tcp_request, TcpRequest};
use minirtos::apps::shell::wifi::{
    connect_net_step, connect_wlan_step, disconnect_wait_step, scan_wait_step, wifi_request,
    ConnectProgress, WaitOutcome, WifiRequest,
};
use minirtos::apps::shell::{AppContext, AppManager, ShellAction, ShellApp};
use minirtos::apps::wlan::{ConnectError, WlanCmd, WlanResult};
use minirtos::drivers::wlan::cyw43::WifiAuth;
use minirtos::error::SysError;
use minirtos::services::{DnsEvent, Ipv4Address, Ipv4Config, NetError, NetResult};

fn app(name: &'static str, help: &'static str, entry: u32) -> &'static ShellApp<u32> {
    Box::leak(Box::new(ShellApp::new(name, help, entry, 256, 100)))
}

fn ctx(words: &[&str]) -> AppContext {
    AppContext::new(words)
}

#[test]
fn app_context_holds_its_arguments() {
    let c = ctx(&["scan", "now"]);
    assert_eq!(c.argc(), 2);
    assert_eq!(c.arg(0), Some("scan"));
    assert_eq!(c.arg(1), Some("now"));
    assert_eq!(c.arg(2), None);
    assert_eq!(c.args(), vec!["scan", "now"]);
    assert!(!c.is_empty());
    let e = ctx(&[]);
    assert!(e.is_empty());
    assert_eq!(e.argc(), 0);
    assert_eq!(e.arg(0), None);
}

#[test]
fn shell_app_keeps_its_fields() {
    let a = ShellApp::new("mem", "Show memory information", 7u32, 256, 100);
    assert_eq!(a.name, "mem");
    assert_eq!(a.help, "Show memory information");
    assert_eq!(a.entry, 7);
    assert_eq!(a.stack_words, 256);
    assert_eq!(a.priority, 100);
}

#[test]
fn register_refuses_a_second_app_of_the_same_name() {
    let mut m: AppManager<u32> = AppManager::new();
    assert_eq!(m.register_app(app("devs", "Show devices", 1)), Ok(()));
    assert_eq!(m.register_app(app("mem", "Show memory", 2)), Ok(()));
    assert_eq!(m.register_app(app("devs", "Another", 3)), Err(SysError::AlreadyExists));
    let names: Vec<&str> = m.enumerate().iter().map(|a| a.name).collect();
    assert_eq!(names, vec!["devs", "mem"]);
    assert_eq!(m.find("devs").map(|a| a.entry), Some(1));
    assert_eq!(m.find("mem").map(|a| a.entry), Some(2));
    assert!(m.find("tasks").is_none());
}

#[test]
fn dispatch_reads_the_first_word() {
    let mut m: AppManager<u32> = AppManager::new();
    m.register_app(app("wifi", "Wi-Fi commands", 9)).unwrap();
    assert!(matches!(m.dispatch(""), ShellAction::Nothing));
    assert!(matches!(m.dispatch("   \t "), ShellAction::Nothing));
    assert!(matches!(m.dispatch("help"), ShellAction::Help));
    assert!(matches!(m.dispatch("  help extra"), ShellAction::Help));
    assert!(matches!(m.dispatch("reboot"), ShellAction::Reboot));
    assert!(matches!(m.dispatch("tick"), ShellAction::Tick));
    assert!(matches!(m.dispatch("nope"), ShellAction::NotFound));
    match m.dispatch(" wifi  connect home\tsecret ") {
        ShellAction::Launch(a, c) => {
            assert_eq!(a.entry, 9);
            assert_eq!(c.args(), vec!["connect", "home", "secret"]);
        }
        _ => panic!("expected a launch"),
    }
}

#[test]
fn wifi_arguments() {
    assert!(matches!(wifi_request(&ctx(&[])), WifiRequest::Help));
    assert!(matches!(wifi_request(&ctx(&["help"])), WifiRequest::Help));
    assert!(matches!(wifi_request(&ctx(&["scan"])), WifiRequest::Run(WlanCmd::Scan)));
    assert!(matches!(wifi_request(&ctx(&["scan", "x"])), WifiRequest::ScanUsage));
    assert!(matches!(wifi_request(&ctx(&["disconnect"])), WifiRequest::Run(WlanCmd::Disconnect)));
    assert!(matches!(wifi_request(&ctx(&["disconnect", "x"])), WifiRequest::DisconnectUsage));
    assert!(matches!(wifi_request(&ctx(&["connect"])), WifiRequest::ConnectUsage));
    assert!(matches!(wifi_request(&ctx(&["connect", "a", "b", "c"])), WifiRequest::ConnectUsage));
    assert!(matches!(wifi_request(&ctx(&["join"])), WifiRequest::Unknown));
    match wifi_request(&ctx(&["connect", "home"])) {
        WifiRequest::Run(WlanCmd::Connect { ssid, password, auth }) => {
            assert_eq!(ssid.as_str(), "home");
            assert!(password.is_none());
            assert_eq!(auth, WifiAuth::Open);
        }
        _ => panic!("expected a connect"),
    }
    match wifi_request(&ctx(&["connect", "home", "secret"])) {
        WifiRequest::Run(WlanCmd::Connect { ssid, password, auth }) => {
            assert_eq!(ssid.as_str(), "home");
            assert_eq!(password.unwrap().as_str(), "secret");
            assert_eq!(auth, WifiAuth::Wpa2AesPsk);
        }
        _ => panic!("expected a connect"),
    }
}

#[test]
fn wifi_length_limits() {
    let ssid32 = "s".repeat(32);
    let ssid33 = "s".repeat(33);
    let pw64 = "p".repeat(64);
    let pw65 = "p".repeat(65);
    assert!(matches!(wifi_request(&ctx(&["connect", &ssid32])), WifiRequest::Run(_)));
    assert!(matches!(wifi_request(&ctx(&["connect", &ssid33])), WifiRequest::SsidTooLong));
    assert!(matches!(wifi_request(&ctx(&["connect", "n", &pw64])), WifiRequest::Run(_)));
    assert!(matches!(wifi_request(&ctx(&["connect", "n", &pw65])), WifiRequest::PasswordTooLong));
    // Sixteen two-byte characters (32 bytes) fit; seventeen (34 bytes) do not.
    let wide_ok = "é".repeat(16);
    let wide_long = "é".repeat(17);
    assert!(matches!(wifi_request(&ctx(&["connect", &wide_ok])), WifiRequest::Run(_)));
    assert!(matches!(wifi_request(&ctx(&["connect", &wide_long])), WifiRequest::SsidTooLong));
}

#[test]
fn wifi_waits() {
    assert_eq!(scan_wait_step(WlanResult::ScanCompleted { count: 3 }), WaitOutcome::Done(3));
    assert_eq!(scan_wait_step(WlanResult::ScanFailed), WaitOutcome::Failed);
    assert_eq!(scan_wait_step(WlanResult::LinkConnected), WaitOutcome::Pending);
    assert_eq!(disconnect_wait_step(WlanResult::Disconnected), WaitOutcome::Done(0));
    assert_eq!(disconnect_wait_step(WlanResult::DisconnectFailed), WaitOutcome::Failed);
    assert_eq!(disconnect_wait_step(WlanResult::ScanFailed), WaitOutcome::Pending);
}

#[test]
fn wifi_connect_progress() {
    assert_eq!(connect_wlan_step(false, WlanResult::ConnectStarted), (false, ConnectProgress::Started));
    assert_eq!(connect_wlan_step(false, WlanResult::LinkConnected), (true, ConnectProgress::LinkUp));
    assert_eq!(
        connect_wlan_step(true, WlanResult::ConnectFailed(ConnectError::ConnectFailed)),
        (true, ConnectProgress::Failed(ConnectError::ConnectFailed))
    );
    assert_eq!(connect_wlan_step(true, WlanResult::Disconnected), (true, ConnectProgress::Lost));
    assert_eq!(connect_wlan_step(true, WlanResult::ScanFailed), (true, ConnectProgress::Waiting));
    let cfg = Ipv4Config {
        address: Ipv4Address(192, 168, 1, 50),
        prefix_len: 24,
        gateway: Some(Ipv4Address(192, 168, 1, 1)),
        dns: None,
    };
    assert_eq!(connect_net_step(false, NetResult::DhcpConfigured(cfg)), ConnectProgress::Waiting);
    assert_eq!(connect_net_step(true, NetResult::DhcpConfigured(cfg)), ConnectProgress::Configured(cfg));
    assert_eq!(connect_net_step(true, NetResult::DhcpDeconfigured), ConnectProgress::DhcpLost);
}

#[test]
fn ping_targets() {
    assert!(matches!(ping_target(&ctx(&[])), PingTarget::Usage));
    match ping_target(&ctx(&["192.168.1.1", "ignored"])) {
        PingTarget::Address(a) => assert_eq!(a, Ipv4Address(192, 168, 1, 1)),
        _ => panic!("expected an address"),
    }
    match ping_target(&ctx(&["example.com"])) {
        PingTarget::Resolve(h) => assert_eq!(h.as_str(), "example.com"),
        _ => panic!("expected a host name"),
    }
    let long_ok = "h".repeat(128);
    let too_long = "h".repeat(129);
    assert!(matches!(ping_target(&ctx(&[&long_ok])), PingTarget::Resolve(_)));
    assert!(matches!(ping_target(&ctx(&[&too_long])), PingTarget::NameTooLong));
    // Not an address (an octet above 255): looked up as a name.
    assert!(matches!(ping_target(&ctx(&["1.2.3.256"])), PingTarget::Resolve(_)));
}

#[test]
fn ping_outcomes() {
    assert_eq!(resolved_address(DnsEvent::Resolved { addr: Ipv4Address(8, 8, 8, 8) }), Some(Ipv4Address(8, 8, 8, 8)));
    assert_eq!(resolved_address(DnsEvent::Timeout), None);
    assert_eq!(resolved_address(DnsEvent::Failed), None);
    assert!(ping_goes_on(None));
    assert!(ping_goes_on(Some(NetError::TimedOut)));
    assert!(!ping_goes_on(Some(NetError::NetworkDown)));
    assert!(!ping_goes_on(Some(NetError::Other)));
}

#[test]
fn tcp_arguments() {
    assert!(matches!(tcp_request(&[]), TcpRequest::Usage));
    assert!(matches!(tcp_request(&["host"]), TcpRequest::InvalidAddress));
    assert!(matches!(tcp_request(&["192.168.1.100"]), TcpRequest::Usage));
    assert!(matches!(tcp_request(&["192.168.1.100", "0"]), TcpRequest::InvalidPort));
    assert!(matches!(tcp_request(&["192.168.1.100", "70000"]), TcpRequest::InvalidPort));
    assert!(matches!(tcp_request(&["192.168.1.100", "port"]), TcpRequest::InvalidPort));
    assert!(matches!(tcp_request(&["192.168.1.100", "7000", "a", "b"]), TcpRequest::ExtraArgs));
    match tcp_request(&["192.168.1.100", "7000"]) {
        TcpRequest::Echo { addr, port, message } => {
            assert_eq!(addr, Ipv4Address(192, 168, 1, 100));
            assert_eq!(port, 7000);
            assert_eq!(message, "miniRTOS");
        }
        _ => panic!("expected an echo"),
    }
    match tcp_request(&["10.0.0.2", "+80", "hello"]) {
        TcpRequest::Echo { addr, port, message } => {
            assert_eq!(addr, Ipv4Address(10, 0, 0, 2));
            assert_eq!(port, 80);
            assert_eq!(message, "hello");
        }
        _ => panic!("expected an echo"),
    }
    let m128 = "m".repeat(128);
    let m129 = "m".repeat(129);
    assert!(matches!(tcp_request(&["10.0.0.2", "80", &m128]), TcpRequest::Echo { .. }));
    assert!(matches!(tcp_request(&["10.0.0.2", "80", &m129]), TcpRequest::MessageTooLong));
}

#[test]
fn tcp_echo_comparison() {
    assert!(echo_matches(b"hello", b"hello"));
    assert!(!echo_matches(b"hellp", b"hello"));
    assert!(!echo_matches(b"hell", b"hello"));
    assert!(echo_matches(b"", b""));
}

#[test]
fn i2c_arguments() {
    assert_eq!(i2c_request(&ctx(&[])), I2cRequest::Help);
    assert_eq!(i2c_request(&ctx(&["help"])), I2cRequest::Help);
    assert_eq!(i2c_request(&ctx(&["scan"])), I2cRequest::Scan);
    assert_eq!(i2c_request(&ctx(&["scan", "1"])), I2cRequest::ScanUsage);
    assert_eq!(i2c_request(&ctx(&["dump"])), I2cRequest::Unknown);
}

#[test]
fn i2c_scan_probes_the_unreserved_addresses() {
    let a = scan_addresses();
    assert_eq!(a.len(), (I2C_SCAN_END - I2C_SCAN_FIRST) as usize);
    assert_eq!(a.len(), 111);
    assert_eq!(a[0], 0x08);
    assert_eq!(*a.last().unwrap(), 0x76);
    assert!(a.windows(2).all(|w| w[1] == w[0] + 1));
}
