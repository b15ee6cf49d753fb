use vstd::prelude::*;

use super::WifiAuth;

verus! {

/// The packed country word: first letter in the low byte, second letter in
/// the next byte, revision in the top half.
pub open spec fn country_word(a: u8, b: u8, rev: u32) -> u32 {
    ((a as u32) | ((b as u32) << 8u32) | (rev << 16u32)) as u32
}

/// Packs a country code and its regulatory revision.
pub fn cyw43_country(a: u8, b: u8, rev: u32) -> (c: u32)
    ensures
        c == country_word(a, b, rev),
        c % 256 == a,
        (c / 256) % 256 == b,
        c / 65536 == rev % 65536,
{
    let c = (a as u32) | ((b as u32) << 8u32) | (rev << 16u32);
    assert(c % 256 == a && (c / 256) % 256 == b && c / 65536 == rev % 65536) by (bit_vector)
        requires
            c == (a as u32) | ((b as u32) << 8u32) | (rev << 16u32),
    ;
    c
}

/// `XX`: the worldwide default.
pub fn cyw43_country_worldwide() -> (c: u32)
    ensures
        c == 0x5858,
{
    cyw43_country(88, 88, 0)
}

/// `CA`: Canada.
pub fn cyw43_country_canada() -> (c: u32)
    ensures
        c == 0x4143,
{
    cyw43_country(67, 65, 0)
}

/// `CN`: China.
pub fn cyw43_country_china() -> (c: u32)
    ensures
        c == 0x4e43,
{
    cyw43_country(67, 78, 0)
}

/// `US`: the United States.
pub fn cyw43_country_usa() -> (c: u32)
    ensures
        c == 0x5355,
{
    cyw43_country(85, 83, 0)
}

/// The firmware's code of each security mode.
pub open spec fn auth_code(a: WifiAuth) -> u32 {
    match a {
        WifiAuth::Open => 0,
        WifiAuth::WpaTkipPsk => 0x0020_0002,
        WifiAuth::Wpa2AesPsk => 0x0040_0004,
        WifiAuth::Wpa2MixedPsk => 0x0040_0006,
        WifiAuth::Wpa3SaeAesPsk => 0x0100_0004,
        WifiAuth::Wpa3Wpa2AesPsk => 0x0140_0004,
    }
}

impl WifiAuth {
    pub fn as_u32(self) -> (c: u32)
        ensures
            c == auth_code(self),
    {
        match self {
            WifiAuth::Open => 0,
            WifiAuth::WpaTkipPsk => 0x0020_0002,
            WifiAuth::Wpa2AesPsk => 0x0040_0004,
            WifiAuth::Wpa2MixedPsk => 0x0040_0006,
            WifiAuth::Wpa3SaeAesPsk => 0x0100_0004,
            WifiAuth::Wpa3Wpa2AesPsk => 0x0140_0004,
        }
    }
}

} // verus!
