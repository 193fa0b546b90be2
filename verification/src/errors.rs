use vstd::prelude::*;

verus! {

/// The error taxonomy of the manager core.
///
/// `AlreadyManaged` and `ConnectionLost` are startup/connection failures and
/// fatal to the process; the remaining variants are per-event outcomes that
/// the dispatch layer recovers from.
#[derive(Clone, Copy, Debug, PartialEq, Eq, Structural)]
pub enum WmError {
    /// Another window manager already holds the substructure-redirect grab.
    AlreadyManaged,
    /// The protocol transport failed.
    ConnectionLost,
    /// An operation referenced a client window absent from the registry.
    UnknownWindow,
    /// A registration was attempted for an already-tracked client window.
    DuplicateWindow,
    /// The client offers no cooperative close path; forceful destruction
    /// would be needed and is never taken implicitly.
    UngracefulCloseRequired,
}

impl WmError {
    /// A human-readable diagnostic, distinct per variant.
    pub fn diagnostic(&self) -> (r: &'static str)
        ensures
            *self is AlreadyManaged ==> r@ == "another window manager is already running"@,
            *self is ConnectionLost ==> r@ == "lost the connection to the display server"@,
            *self is UnknownWindow ==> r@ == "the window is not tracked by the manager"@,
            *self is DuplicateWindow ==> r@ == "the window is already tracked by the manager"@,
            *self is UngracefulCloseRequired ==> r@ == "the client does not support cooperative close"@,
    {
        match self {
            WmError::AlreadyManaged => "another window manager is already running",
            WmError::ConnectionLost => "lost the connection to the display server",
            WmError::UnknownWindow => "the window is not tracked by the manager",
            WmError::DuplicateWindow => "the window is already tracked by the manager",
            WmError::UngracefulCloseRequired => "the client does not support cooperative close",
        }
    }
}

} // verus!
