use vstd::prelude::*;
use crate::errors::WmError;

verus! {

/// The outcome of the substructure-redirect grab that makes this process
/// the window manager, reduced to the cases the startup logic decides on.
#[derive(Clone, Copy, Debug, PartialEq, Eq, Structural)]
pub enum AttachOutcome {
    /// The grab succeeded: this process is now the window manager.
    Granted,
    /// The server refused the grab with an access error: another window
    /// manager already holds it.
    AccessDenied,
    /// The grab failed for any other reason: the connection or the server
    /// is unusable.
    Failed,
}

/// Decides how the process reacts to the outcome of the manager grab.
///
/// An access refusal is the specific, expected case that another manager
/// already owns the display and yields `AlreadyManaged`; any other failure
/// yields `ConnectionLost`.  Both are fatal, but their diagnostics are
/// distinct.
pub fn classify_attach(outcome: AttachOutcome) -> (r: Result<(), WmError>)
    ensures
        r == Ok::<(), WmError>(()) <==> outcome is Granted,
        outcome is AccessDenied <==> r == Err::<(), WmError>(WmError::AlreadyManaged),
        outcome is Failed <==> r == Err::<(), WmError>(WmError::ConnectionLost),
{
    match outcome {
        AttachOutcome::Granted => Ok(()),
        AttachOutcome::AccessDenied => Err(WmError::AlreadyManaged),
        AttachOutcome::Failed => Err(WmError::ConnectionLost),
    }
}

} // verus!
