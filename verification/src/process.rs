//! Decision logic of the process-directory and process-lifecycle
//! operations.
//!
//! The operations themselves act on OS-owned resources (windows, process
//! handles, monitors); an outer shell performs those calls and feeds every
//! OS reading into the functions here, which decide validity and the final
//! outcome of each protocol. The contracts pin the outcome down for every
//! combination of readings, so the shell has no decisions of its own left
//! to make.

use vstd::prelude::*;
use crate::error::OpError;

verus! {

/// The reference pixel density: a monitor at this DPI has scale factor one.
pub const REFERENCE_DPI: u32 = 96;

/// An opaque identifier of an OS window, borrowed for the duration of a
/// call. A null handle is invalid and never held by this type.
#[derive(Clone, Copy, Debug, PartialEq, Eq, Structural)]
pub struct WindowHandle {
    pub raw: isize,
}

impl WindowHandle {
    /// A held handle is never the null handle.
    pub open spec fn valid(self) -> bool {
        self.raw != 0
    }
}

/// A numeric OS process identifier. Zero is not a valid identifier and
/// signals lookup failure, so this type never holds it.
#[derive(Clone, Copy, Debug, PartialEq, Eq, Structural)]
pub struct ProcessId {
    pub pid: u32,
}

impl ProcessId {
    /// A held identifier is never zero.
    pub open spec fn valid(self) -> bool {
        self.pid != 0
    }
}

/// A window's display scale factor: the monitor's vertical DPI over the
/// reference DPI, kept as an exact ratio. The DPI is positive, so the
/// scale factor is positive.
#[derive(Clone, Copy, Debug, PartialEq, Eq, Structural)]
pub struct ScaleFactor {
    pub dpi_y: u32,
}

impl ScaleFactor {
    /// The held DPI is positive, hence the ratio is.
    pub open spec fn valid(self) -> bool {
        self.dpi_y > 0
    }

    /// The scale factor as a ratio: monitor DPI over the reference DPI.
    pub fn ratio(&self) -> (r: (u32, u32))
        ensures
            r.0 == self.dpi_y,
            r.1 == REFERENCE_DPI,
    {
        (self.dpi_y, REFERENCE_DPI)
    }
}

/// The result of one foreground lookup: the focused window, its owning
/// process and the window's display scale factor. Built fresh on every
/// lookup; never cached.
#[derive(Clone, Copy, Debug, PartialEq, Eq, Structural)]
pub struct ForegroundProcessInfo {
    pub pid: ProcessId,
    pub hwnd: WindowHandle,
    pub scale: ScaleFactor,
}

impl ForegroundProcessInfo {
    /// Every part is valid: positive pid, non-null handle, positive scale.
    pub open spec fn valid(self) -> bool {
        self.pid.valid() && self.hwnd.valid() && self.scale.valid()
    }
}

/// What a raw window handle validates to: `None` exactly for the null
/// handle.
pub open spec fn spec_window_handle_of(raw: isize) -> Option<WindowHandle> {
    if raw == 0 {
        None
    } else {
        Some(WindowHandle { raw })
    }
}

/// Validates the raw window handle an OS query returned. The null handle
/// means no window is focused and is rejected.
pub fn window_handle_of(raw: isize) -> (r: Option<WindowHandle>)
    ensures
        r == spec_window_handle_of(raw),
        r is None <==> raw == 0,
        (r matches Some(h) ==> h.valid() && h.raw == raw),
{
    if raw == 0 {
        None
    } else {
        Some(WindowHandle { raw })
    }
}

/// What a raw process identifier validates to: `None` exactly for zero.
pub open spec fn spec_process_id_of(raw: u32) -> Option<ProcessId> {
    if raw == 0 {
        None
    } else {
        Some(ProcessId { pid: raw })
    }
}

/// Validates the process identifier a window resolved to. Zero means the
/// resolution failed and is rejected.
pub fn process_id_of(raw: u32) -> (r: Option<ProcessId>)
    ensures
        r == spec_process_id_of(raw),
        r is None <==> raw == 0,
        (r matches Some(p) ==> p.valid() && p.pid == raw),
{
    if raw == 0 {
        None
    } else {
        Some(ProcessId { pid: raw })
    }
}

/// The outcome of the scale-factor protocol, decided by its three OS
/// readings in order: whether the thread's DPI-awareness context could be
/// switched, whether a monitor lies under the window, and what DPI that
/// monitor reported (`None` when the query failed). Any failure, and a
/// reported DPI of zero, is a lookup failure.
pub open spec fn spec_scale_outcome(
    context_switched: bool,
    monitor_found: bool,
    dpi_y: Option<u32>,
) -> Result<ScaleFactor, OpError> {
    if !context_switched {
        Err(OpError::Lookup)
    } else if !monitor_found {
        Err(OpError::Lookup)
    } else {
        match dpi_y {
            None => Err(OpError::Lookup),
            Some(d) => if d == 0 {
                Err(OpError::Lookup)
            } else {
                Ok(ScaleFactor { dpi_y: d })
            },
        }
    }
}

/// Decides the scale-factor computation from its OS readings.
///
/// `restore_ok` reports whether the thread's prior DPI-awareness context
/// could be restored afterwards; the contract does not mention it, so a
/// restoration failure never overrides the primary outcome.
pub fn scale_factor_outcome(
    context_switched: bool,
    monitor_found: bool,
    dpi_y: Option<u32>,
    restore_ok: bool,
) -> (r: Result<ScaleFactor, OpError>)
    ensures
        r == spec_scale_outcome(context_switched, monitor_found, dpi_y),
        (r matches Ok(s) ==> s.valid()),
        r is Ok <==> (context_switched && monitor_found && (dpi_y matches Some(d) && d > 0)),
{
    if !context_switched {
        Err(OpError::Lookup)
    } else if !monitor_found {
        Err(OpError::Lookup)
    } else {
        match dpi_y {
            None => Err(OpError::Lookup),
            Some(d) => if d == 0 {
                Err(OpError::Lookup)
            } else {
                Ok(ScaleFactor { dpi_y: d })
            },
        }
    }
}

/// The outcome of one suspend or resume call, decided by whether a
/// full-access process handle was acquired and whether the privileged
/// primitive then succeeded. Either failure is an access failure.
pub open spec fn spec_lifecycle_outcome(
    handle_acquired: bool,
    primitive_ok: bool,
) -> Result<(), OpError> {
    if !handle_acquired {
        Err(OpError::Access)
    } else if !primitive_ok {
        Err(OpError::Access)
    } else {
        Ok(())
    }
}

/// Decides a suspend call from its OS readings: whether the process
/// handle was acquired and whether the suspend primitive succeeded. The
/// primitive is idempotent at the OS level — suspending an already
/// suspended process reports success — and success is never treated as
/// an error here.
///
/// `close_ok` reports whether the handle was closed cleanly afterwards;
/// the contract does not mention it, so a close failure never overrides
/// the primary outcome.
pub fn suspend_outcome(
    handle_acquired: bool,
    primitive_ok: bool,
    close_ok: bool,
) -> (r: Result<(), OpError>)
    ensures
        r == spec_lifecycle_outcome(handle_acquired, primitive_ok),
        r is Ok <==> (handle_acquired && primitive_ok),
        !handle_acquired ==> r == Err::<(), OpError>(OpError::Access),
{
    if !handle_acquired {
        Err(OpError::Access)
    } else if !primitive_ok {
        Err(OpError::Access)
    } else {
        Ok(())
    }
}

/// Decides a resume call from its OS readings; the protocol is identical
/// to the suspend protocol, including the irrelevance of `close_ok`.
/// Resuming an already running process reports success at the OS level
/// and is accordingly no error here.
pub fn resume_outcome(
    handle_acquired: bool,
    primitive_ok: bool,
    close_ok: bool,
) -> (r: Result<(), OpError>)
    ensures
        r == spec_lifecycle_outcome(handle_acquired, primitive_ok),
        r is Ok <==> (handle_acquired && primitive_ok),
        !handle_acquired ==> r == Err::<(), OpError>(OpError::Access),
{
    if !handle_acquired {
        Err(OpError::Access)
    } else if !primitive_ok {
        Err(OpError::Access)
    } else {
        Ok(())
    }
}

/// Decides a window-activation call: the OS either granted the foreground
/// transfer or refused it, a normal, expected failure mode.
pub fn activation_outcome(granted: bool) -> (r: Result<(), OpError>)
    ensures
        r is Ok <==> granted,
        !granted ==> r == Err::<(), OpError>(OpError::Activation),
{
    if granted {
        Ok(())
    } else {
        Err(OpError::Activation)
    }
}

/// The outcome of a whole foreground lookup, decided by its OS readings
/// in protocol order: the raw focused-window handle, the raw owning
/// process identifier, then the three readings of the scale-factor
/// protocol. An invalid handle or a zero identifier is a lookup failure;
/// otherwise the scale-factor outcome decides, and a full triple is
/// returned only when every step succeeded.
pub open spec fn spec_resolve_foreground(
    hwnd_raw: isize,
    pid_raw: u32,
    context_switched: bool,
    monitor_found: bool,
    dpi_y: Option<u32>,
) -> Result<ForegroundProcessInfo, OpError> {
    match spec_window_handle_of(hwnd_raw) {
        None => Err(OpError::Lookup),
        Some(hwnd) => match spec_process_id_of(pid_raw) {
            None => Err(OpError::Lookup),
            Some(pid) => match spec_scale_outcome(context_switched, monitor_found, dpi_y) {
                Err(e) => Err(e),
                Ok(scale) => Ok(ForegroundProcessInfo { pid, hwnd, scale }),
            },
        },
    }
}

/// Decides a whole foreground lookup from its OS readings. No partial
/// result is ever returned: the triple comes back only if the handle is
/// valid, the identifier is nonzero and the scale factor resolved.
pub fn resolve_foreground(
    hwnd_raw: isize,
    pid_raw: u32,
    context_switched: bool,
    monitor_found: bool,
    dpi_y: Option<u32>,
    restore_ok: bool,
) -> (r: Result<ForegroundProcessInfo, OpError>)
    ensures
        r == spec_resolve_foreground(hwnd_raw, pid_raw, context_switched, monitor_found, dpi_y),
        (r matches Ok(info) ==> info.valid() && info.hwnd.raw == hwnd_raw && info.pid.pid
            == pid_raw),
{
    match window_handle_of(hwnd_raw) {
        None => Err(OpError::Lookup),
        Some(hwnd) => match process_id_of(pid_raw) {
            None => Err(OpError::Lookup),
            Some(pid) => match scale_factor_outcome(
                context_switched,
                monitor_found,
                dpi_y,
                restore_ok,
            ) {
                Err(e) => Err(e),
                Ok(scale) => Ok(ForegroundProcessInfo { pid, hwnd, scale }),
            },
        },
    }
}

/// For every non-null window handle whose owning process resolves to a
/// nonzero identifier, and whose monitor reports a positive DPI, the
/// foreground lookup succeeds, and what it returns carries an identifier
/// greater than zero and a positive scale factor.
pub proof fn lemma_foreground_success(hwnd_raw: isize, pid_raw: u32, dpi_y: u32)
    requires
        hwnd_raw != 0,
        pid_raw != 0,
        dpi_y > 0,
    ensures
        spec_resolve_foreground(hwnd_raw, pid_raw, true, true, Some(dpi_y)) matches Ok(info)
            && info.pid.pid > 0 && info.scale.dpi_y > 0 && info.valid(),
{
}

/// Suspending and then immediately resuming a live, accessible process
/// succeeds in both calls: each call acquires its handle and its
/// primitive succeeds, so each outcome is success, whatever happened when
/// the handles were closed.
pub proof fn lemma_suspend_resume_success()
    ensures
        spec_lifecycle_outcome(true, true) == Ok::<(), OpError>(()),
{
}

} // verus!
