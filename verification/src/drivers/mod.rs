use vstd::prelude::*;

pub mod wlan;
pub mod gpio;
pub mod dma;
pub mod uart;
pub mod spi;
pub mod i2c;
pub mod lcd;
pub mod input;

verus! {

/// Number of busy-wait cycles used for a delay of `ms` milliseconds
/// (the core runs at 150 MHz and the delay loop takes 1.5 cycles per count);
/// the product saturates at `u32::MAX`.
pub fn delay_ms_cycles(ms: u32) -> (cycles: u32)
    ensures
        ms * 100_000 <= u32::MAX ==> cycles == ms * 100_000,
        ms * 100_000 > u32::MAX ==> cycles == u32::MAX,
{
    match ms.checked_mul(100_000) {
        Some(c) => c,
        None => u32::MAX,
    }
}

/// Number of delay-loop iterations for `ns` nanoseconds: the duration
/// divided by ten nanoseconds, rounded up, and at least one.
pub fn delay_ns_loops(ns: u32) -> (loops: u32)
    requires
        ns + 9 <= u32::MAX,
    ensures
        ns == 0 ==> loops == 1,
        ns > 0 ==> loops == (ns + 9) / 10,
        loops * 10 >= ns,
{
    let loops = (ns + 9) / 10;
    if loops < 1 {
        1
    } else {
        loops
    }
}

} // verus!
