//! The error taxonomy shared by every operation.
//!
//! Callers at the outermost boundary collapse these into a single opaque
//! failure signal; inside the library each failure keeps its cause.

use vstd::prelude::*;

verus! {

/// Why an operation failed.
#[derive(Clone, Copy, Debug, PartialEq, Eq, Structural)]
pub enum OpError {
    /// The foreground window, its process, its monitor or the monitor's
    /// DPI could not be resolved.
    Lookup,
    /// A process handle could not be acquired, or a suspend/resume
    /// primitive reported failure.
    Access,
    /// The OS refused to move the window to the foreground.
    Activation,
    /// Window capture failed or returned a buffer inconsistent with the
    /// reported dimensions.
    Capture,
    /// The input bytes are not a valid lossless image.
    Decode,
    /// Re-encoding an image failed.
    Encoding,
    /// A caller-contract violation: the requested target height is zero.
    InvalidTarget,
}

} // verus!
