//! Failures that construction and dispatch report to the caller.

use vstd::prelude::*;

verus! {

/// A failure that stops the operation that reports it.
#[derive(Clone, Copy, Debug, PartialEq, Eq, Structural)]
pub enum GpuError {
    /// No device qualifies, or the requested device index is out of range.
    DeviceUnavailable,
    /// The requested geometry is degenerate or its byte lengths cannot be represented.
    ConfigurationInvalid,
    /// A device-API call failed; the payload is the native status code.
    DeviceApiFailure(i32),
}

} // verus!
