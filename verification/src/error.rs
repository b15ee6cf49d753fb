use vstd::prelude::*;

verus! {

/// Errors reported by device drivers.
#[derive(Clone, Copy, Debug, PartialEq, Eq, Structural)]
pub enum DevError {
    InvalidArg,
    Unsupported,
    Io,
    Timeout,
    DevAlreadyInit,
    NotFound,
}

/// Errors reported by the system services (task creation, registries).
#[derive(Clone, Copy, Debug, PartialEq, Eq, Structural)]
pub enum SysError {
    AlreadyExists,
    NotFound,
    NoMemory,
    InvalidArg,
}

} // verus!
