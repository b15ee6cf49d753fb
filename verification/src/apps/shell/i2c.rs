//! The `i2c` command.
use vstd::prelude::*;

use super::AppContext;
use crate::apps::text::str_eq;

verus! {

/// The first address probed by a scan.
pub const I2C_SCAN_FIRST: u8 = 0x08;

/// The address after the last one probed by a scan.
pub const I2C_SCAN_END: u8 = 0x77;

/// What the arguments of `i2c` ask for.
#[derive(Clone, Copy, Debug, PartialEq, Eq, Structural)]
pub enum I2cRequest {
    /// Probe every non-reserved address.
    Scan,
    /// `i2c scan` with extra arguments.
    ScanUsage,
    /// `i2c`, or `i2c help`.
    Help,
    /// An unknown sub-command.
    Unknown,
}

/// Reads the arguments of `i2c`.
pub fn i2c_request(ctx: &AppContext) -> (r: I2cRequest)
    ensures
        r == (if ctx@.len() == 0 || ctx@[0] == "help"@ {
            I2cRequest::Help
        } else if ctx@[0] == "scan"@ {
            if ctx@.len() != 1 {
                I2cRequest::ScanUsage
            } else {
                I2cRequest::Scan
            }
        } else {
            I2cRequest::Unknown
        }),
{
    match ctx.arg(0) {
        None => I2cRequest::Help,
        Some(cmd) => {
            if str_eq(cmd, "help") {
                I2cRequest::Help
            } else if str_eq(cmd, "scan") {
                if ctx.argc() != 1 {
                    I2cRequest::ScanUsage
                } else {
                    I2cRequest::Scan
                }
            } else {
                I2cRequest::Unknown
            }
        },
    }
}

/// The addresses a scan probes, in order: all but the reserved ones at
/// either end of the 7-bit range.
pub fn scan_addresses() -> (v: Vec<u8>)
    ensures
        v@.len() == I2C_SCAN_END - I2C_SCAN_FIRST,
        forall|i: int| 0 <= i < v@.len() ==> v@[i] == I2C_SCAN_FIRST + i,
{
    let mut v: Vec<u8> = Vec::new();
    let mut a: u8 = I2C_SCAN_FIRST;
    while a < I2C_SCAN_END
        invariant
            I2C_SCAN_FIRST <= a <= I2C_SCAN_END,
            v@.len() == a - I2C_SCAN_FIRST,
            forall|i: int| 0 <= i < v@.len() ==> v@[i] == I2C_SCAN_FIRST + i,
        decreases I2C_SCAN_END - a,
    {
        v.push(a);
        a += 1;
    }
    v
}

} // verus!
