use vstd::prelude::*;

verus! {

/// How long the driver waits for transmit credit before a send fails.
pub const SDPCM_SEND_TIMEOUT_US: u64 = 1_000_000;
/// How long the driver waits for the answer to an ioctl.
pub const CYW43_IOCTL_TIMEOUT_US: u64 = 500_000;
/// Reads of the status register while the chip does not answer.
pub const STATUS_READ_ATTEMPTS: u32 = 1000;
/// Reads of the status register waiting for function 2 to take a frame.
pub const F2_READY_ATTEMPTS: u32 = 1000;
/// Reads of the test register waiting for the chip to answer.
pub const ALIVE_ATTEMPTS: u32 = 10;
/// Reads of the clock register waiting for the ALP clock.
pub const ALP_ATTEMPTS: u32 = 10;
/// Reads of the clock register waiting for the HT clock.
pub const HT_ATTEMPTS: u32 = 1000;

/// What to do after a bounded number of polls.
#[derive(Copy, Clone, Debug, PartialEq, Eq, Structural)]
pub enum Retry {
    /// The awaited condition holds.
    Done,
    /// Poll again.
    Again,
    /// The polls are used up.
    GiveUp,
}

/// After the `attempts`-th poll, of at most `limit`: done when the awaited
/// condition holds, given up when the polls are used up, else poll again.
pub fn retry_step(ready: bool, attempts: u32, limit: u32) -> (r: Retry)
    ensures
        r == (if ready {
            Retry::Done
        } else if attempts >= limit {
            Retry::GiveUp
        } else {
            Retry::Again
        }),
{
    if ready {
        Retry::Done
    } else if attempts >= limit {
        Retry::GiveUp
    } else {
        Retry::Again
    }
}

/// Microseconds from `start` to `now` on a 64-bit clock that wraps.
pub open spec fn elapsed_us(start: u64, now: u64) -> int {
    if now >= start {
        now - start
    } else {
        now + 18446744073709551616 - start
    }
}

/// The microseconds from `start` to `now`, across a wrap of the clock.
pub fn elapsed(start: u64, now: u64) -> (e: u64)
    ensures
        e == elapsed_us(start, now),
{
    if now >= start {
        now - start
    } else {
        (u64::MAX - start) + now + 1
    }
}

/// The wait for transmit credit begun at `start` has run out at `now`.
pub fn send_wait_expired(start: u64, now: u64) -> (r: bool)
    ensures
        r == (elapsed_us(start, now) > SDPCM_SEND_TIMEOUT_US),
{
    elapsed(start, now) > SDPCM_SEND_TIMEOUT_US
}

/// The wait for an ioctl answer begun at `start` may go on at `now`.
pub fn ioctl_wait_open(start: u64, now: u64) -> (r: bool)
    ensures
        r == (elapsed_us(start, now) < CYW43_IOCTL_TIMEOUT_US),
{
    elapsed(start, now) < CYW43_IOCTL_TIMEOUT_US
}

} // verus!
