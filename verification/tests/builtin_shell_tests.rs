use minirtos::apps::builtin_shell::{parse_builtin_command, BuiltinCommand, I2cSubcommand, WifiSubcommand};
use minirtos::drivers::wlan::cyw43::WifiAuth;

#[test]
fn simple_commands() {
    assert!(matches!(parse_builtin_command(""), BuiltinCommand::Nothing));
    assert!(matches!(parse_builtin_command("help"), BuiltinCommand::Help));
    assert!(matches!(parse_builtin_command(" tick "), BuiltinCommand::Tick));
    assert!(matches!(parse_builtin_command("tasks"), BuiltinCommand::Tasks));
    assert!(matches!(parse_builtin_command("devs"), BuiltinCommand::Devs));
    assert!(matches!(parse_builtin_command("reboot"), BuiltinCommand::Reboot));
    assert!(matches!(parse_builtin_command("ping"), BuiltinCommand::Ping));
    assert!(matches!(parse_builtin_command("touch"), BuiltinCommand::Touch));
    assert!(matches!(parse_builtin_command("kbd"), BuiltinCommand::Kbd));
    match parse_builtin_command("frobnicate now") {
        BuiltinCommand::Unknown(c) => assert_eq!(c, "frobnicate"),
        _ => panic!("expected an unknown command"),
    }
}

#[test]
fn wifi_subcommands() {
    assert!(matches!(parse_builtin_command("wifi"), BuiltinCommand::Wifi(WifiSubcommand::Help)));
    assert!(matches!(parse_builtin_command("wifi help"), BuiltinCommand::Wifi(WifiSubcommand::Help)));
    assert!(matches!(parse_builtin_command("wifi scan"), BuiltinCommand::Wifi(WifiSubcommand::Scan)));
    assert!(matches!(parse_builtin_command("wifi disconnect"), BuiltinCommand::Wifi(WifiSubcommand::Disconnect)));
    assert!(matches!(parse_builtin_command("wifi connect"), BuiltinCommand::Wifi(WifiSubcommand::MissingSsid)));
    match parse_builtin_command("wifi connect home") {
        BuiltinCommand::Wifi(WifiSubcommand::Connect { ssid, password, auth }) => {
            assert_eq!(ssid, "home");
            assert_eq!(password, None);
            assert_eq!(auth, WifiAuth::Open);
        }
        _ => panic!("expected a connect"),
    }
    match parse_builtin_command("wifi connect home secret extra") {
        BuiltinCommand::Wifi(WifiSubcommand::Connect { ssid, password, auth }) => {
            assert_eq!(ssid, "home");
            assert_eq!(password, Some("secret"));
            assert_eq!(auth, WifiAuth::Wpa2AesPsk);
        }
        _ => panic!("expected a connect"),
    }
    match parse_builtin_command("wifi join") {
        BuiltinCommand::Wifi(WifiSubcommand::Unknown(c)) => assert_eq!(c, "join"),
        _ => panic!("expected an unknown sub-command"),
    }
}

#[test]
fn i2c_subcommands() {
    assert!(matches!(parse_builtin_command("i2c"), BuiltinCommand::I2c(I2cSubcommand::Help)));
    assert!(matches!(parse_builtin_command("i2c scan 1"), BuiltinCommand::I2c(I2cSubcommand::Scan)));
    match parse_builtin_command("i2c dump") {
        BuiltinCommand::I2c(I2cSubcommand::Unknown(c)) => assert_eq!(c, "dump"),
        _ => panic!("expected an unknown sub-command"),
    }
}
