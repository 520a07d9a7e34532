//! The error taxonomy: the startup failures that abort before any
//! forwarding begins, and the classification of steady-state I/O error
//! codes into not-ready, transient and fatal.

use vstd::prelude::*;
use crate::netcfg::ConfigStep;

verus! {

/// Operation was interrupted before doing anything; retry it.
pub const EINTR: i32 = 4;

/// No data ready on a non-blocking resource; wait for readiness.
pub const EAGAIN: i32 = 11;

/// The descriptor no longer names an open resource.
pub const EBADF: i32 = 9;

/// The device is gone.
pub const ENXIO: i32 = 6;

/// No such device.
pub const ENODEV: i32 = 19;

/// A startup failure; each aborts the whole process, since no safe
/// degraded mode exists before the tunnel is up.
#[derive(Clone, Copy, PartialEq, Eq, Structural, Debug)]
pub enum StartupError {
    /// The virtual-device resource could not be opened.
    DeviceUnavailable { os_code: i32 },
    /// A bring-up control operation failed at the given step.
    Configuration { step: ConfigStep, os_code: i32 },
    /// The transport socket could not bind its local address.
    Bind { os_code: i32 },
}

/// What a failed read or write means for the forwarding loop.
#[derive(Clone, Copy, PartialEq, Eq, Structural, Debug)]
pub enum IoErrorClass {
    /// Not an error: the resource has nothing ready; wait again.
    NotReady,
    /// One packet is lost; log it and keep forwarding.
    Transient,
    /// The resource itself is invalid; stop the engine.
    Fatal,
}

/// The class of an OS error code: would-block and interruption are
/// not-ready signals, a dead descriptor or device is fatal, and every
/// other per-packet failure is transient.
pub open spec fn classify_spec(os_code: i32) -> IoErrorClass {
    if os_code == EAGAIN || os_code == EINTR {
        IoErrorClass::NotReady
    } else if os_code == EBADF || os_code == ENXIO || os_code == ENODEV {
        IoErrorClass::Fatal
    } else {
        IoErrorClass::Transient
    }
}

/// Classify an OS error code for the forwarding loop.
pub fn classify_os_error(os_code: i32) -> (r: IoErrorClass)
    ensures
        r == classify_spec(os_code),
{
    if os_code == EAGAIN || os_code == EINTR {
        IoErrorClass::NotReady
    } else if os_code == EBADF || os_code == ENXIO || os_code == ENODEV {
        IoErrorClass::Fatal
    } else {
        IoErrorClass::Transient
    }
}

} // verus!
