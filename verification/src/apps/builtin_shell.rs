//! The single-task shell whose commands are built in: what each command
//! line asks for.
use vstd::prelude::*;

use crate::apps::text::{ascii_words, split_words, str_eq, str_views};
use crate::drivers::wlan::cyw43::WifiAuth;

verus! {

/// The longest command line read by the shell.
pub const LINE_LEN: usize = 64;

/// The sub-commands of `wifi`.
pub enum WifiSubcommand<'a> {
    Scan,
    /// Join a network; with a passphrase the security is WPA2-AES,
    /// without it the network is open.
    Connect { ssid: &'a str, password: Option<&'a str>, auth: WifiAuth },
    /// `wifi connect` without an SSID.
    MissingSsid,
    Disconnect,
    Help,
    Unknown(&'a str),
}

/// The sub-commands of `i2c`.
pub enum I2cSubcommand<'a> {
    Scan,
    Help,
    Unknown(&'a str),
}

/// A command line of the built-in shell.
pub enum BuiltinCommand<'a> {
    Nothing,
    Help,
    Tick,
    Tasks,
    Devs,
    Reboot,
    Wifi(WifiSubcommand<'a>),
    Ping,
    I2c(I2cSubcommand<'a>),
    Touch,
    Kbd,
    Unknown(&'a str),
}

/// The `wifi` sub-command the words `a` (after `wifi`) ask for.
pub open spec fn wifi_sub_spec(a: Seq<Seq<char>>, r: WifiSubcommand) -> bool {
    if a.len() == 0 || a[0] == "help"@ {
        r is Help
    } else if a[0] == "scan"@ {
        r is Scan
    } else if a[0] == "disconnect"@ {
        r is Disconnect
    } else if a[0] == "connect"@ {
        if a.len() < 2 {
            r is MissingSsid
        } else {
            r matches WifiSubcommand::Connect { ssid, password, auth } && ssid@ == a[1] && (if a.len()
                > 2 {
                password matches Some(p) && p@ == a[2] && auth == WifiAuth::Wpa2AesPsk
            } else {
                password is None && auth == WifiAuth::Open
            })
        }
    } else {
        r matches WifiSubcommand::Unknown(c) && c@ == a[0]
    }
}

/// The `i2c` sub-command the words `a` (after `i2c`) ask for.
pub open spec fn i2c_sub_spec(a: Seq<Seq<char>>, r: I2cSubcommand) -> bool {
    if a.len() == 0 || a[0] == "help"@ {
        r is Help
    } else if a[0] == "scan"@ {
        r is Scan
    } else {
        r matches I2cSubcommand::Unknown(c) && c@ == a[0]
    }
}

/// The command a line asks for, given its words `w`.
pub open spec fn builtin_command_spec(w: Seq<Seq<char>>, r: BuiltinCommand) -> bool {
    if w.len() == 0 {
        r is Nothing
    } else if w[0] == "help"@ {
        r is Help
    } else if w[0] == "tick"@ {
        r is Tick
    } else if w[0] == "tasks"@ {
        r is Tasks
    } else if w[0] == "devs"@ {
        r is Devs
    } else if w[0] == "reboot"@ {
        r is Reboot
    } else if w[0] == "wifi"@ {
        r matches BuiltinCommand::Wifi(s) && wifi_sub_spec(w.skip(1), s)
    } else if w[0] == "ping"@ {
        r is Ping
    } else if w[0] == "i2c"@ {
        r matches BuiltinCommand::I2c(s) && i2c_sub_spec(w.skip(1), s)
    } else if w[0] == "touch"@ {
        r is Touch
    } else if w[0] == "kbd"@ {
        r is Kbd
    } else {
        r matches BuiltinCommand::Unknown(c) && c@ == w[0]
    }
}

fn wifi_subcommand<'a>(a: &[&'a str]) -> (r: WifiSubcommand<'a>)
    ensures
        wifi_sub_spec(str_views(a@), r),
{
    if a.len() == 0 {
        return WifiSubcommand::Help;
    }
    assert(a[0]@ == str_views(a@)[0]);
    let cmd = a[0];
    if str_eq(cmd, "help") {
        WifiSubcommand::Help
    } else if str_eq(cmd, "scan") {
        WifiSubcommand::Scan
    } else if str_eq(cmd, "disconnect") {
        WifiSubcommand::Disconnect
    } else if str_eq(cmd, "connect") {
        if a.len() < 2 {
            WifiSubcommand::MissingSsid
        } else {
            assert(a[1]@ == str_views(a@)[1]);
            if a.len() > 2 {
                assert(a[2]@ == str_views(a@)[2]);
                WifiSubcommand::Connect {
                    ssid: a[1],
                    password: Some(a[2]),
                    auth: WifiAuth::Wpa2AesPsk,
                }
            } else {
                WifiSubcommand::Connect { ssid: a[1], password: None, auth: WifiAuth::Open }
            }
        }
    } else {
        WifiSubcommand::Unknown(cmd)
    }
}

fn i2c_subcommand<'a>(a: &[&'a str]) -> (r: I2cSubcommand<'a>)
    ensures
        i2c_sub_spec(str_views(a@), r),
{
    if a.len() == 0 {
        return I2cSubcommand::Help;
    }
    assert(a[0]@ == str_views(a@)[0]);
    let cmd = a[0];
    if str_eq(cmd, "help") {
        I2cSubcommand::Help
    } else if str_eq(cmd, "scan") {
        I2cSubcommand::Scan
    } else {
        I2cSubcommand::Unknown(cmd)
    }
}

/// Reads a command line of the built-in shell.
pub fn parse_builtin_command<'a>(line: &'a str) -> (r: BuiltinCommand<'a>)
    ensures
        builtin_command_spec(ascii_words(line@), r),
{
    let words = split_words(line);
    if words.len() == 0 {
        return BuiltinCommand::Nothing;
    }
    let cmd = words[0];
    assert(cmd@ == ascii_words(line@)[0]);
    let rest = words.as_slice().split_at(1).1;
    assert(str_views(rest@) =~= ascii_words(line@).skip(1));
    if str_eq(cmd, "help") {
        BuiltinCommand::Help
    } else if str_eq(cmd, "tick") {
        BuiltinCommand::Tick
    } else if str_eq(cmd, "tasks") {
        BuiltinCommand::Tasks
    } else if str_eq(cmd, "devs") {
        BuiltinCommand::Devs
    } else if str_eq(cmd, "reboot") {
        BuiltinCommand::Reboot
    } else if str_eq(cmd, "wifi") {
        BuiltinCommand::Wifi(wifi_subcommand(rest))
    } else if str_eq(cmd, "ping") {
        BuiltinCommand::Ping
    } else if str_eq(cmd, "i2c") {
        BuiltinCommand::I2c(i2c_subcommand(rest))
    } else if str_eq(cmd, "touch") {
        BuiltinCommand::Touch
    } else if str_eq(cmd, "kbd") {
        BuiltinCommand::Kbd
    } else {
        BuiltinCommand::Unknown(cmd)
    }
}

} // verus!
