//! The process-wide error type shared by every capture operation.

use vstd::prelude::*;

verus! {

/// What went wrong during a capture operation.
///
/// Every fallible operation of the crate reports one of these values; none of
/// them aborts the process.
#[derive(Debug, Copy, Clone, PartialEq, Eq, Structural)]
pub enum Error {
    /// No usable connection to the display server could be established, or an
    /// established one stopped answering.
    SubsystemUnreachable,
    /// The display server refused or failed to report the current monitor
    /// configuration.
    EnumerationFailed,
    /// The display server refused or failed to hand out pixel data for the
    /// requested region.
    CaptureFailed,
    /// A display index at or beyond the length of the current display list
    /// was requested.
    IndexOutOfRange,
}

} // verus!
