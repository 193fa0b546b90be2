use vstd::prelude::*;
use crate::geometry::ConfigureRequest;

verus! {

/// An incoming protocol event, reduced to the plain values the manager's
/// logic reads.  Events whose kind the manager does not recognise arrive as
/// `Unknown` and are ignored.
#[derive(Clone, Copy, Debug, PartialEq, Eq)]
pub enum WmEvent {
    /// An application asks to move/resize/restack itself.
    ConfigureRequest(ConfigureRequest),
    /// An application asks to become visible.  `frame_id` is a freshly
    /// allocated window identifier for the frame the manager may create;
    /// the geometry and `supports_delete` describe the client window as it
    /// stands when the request is handled.
    MapRequest {
        window: u32,
        frame_id: u32,
        x: i16,
        y: i16,
        width: u16,
        height: u16,
        supports_delete: bool,
    },
    /// A window was unmapped; `sequence` is the notification's sequence
    /// number, compared against pending self-issued requests.
    UnmapNotify { window: u32, sequence: u64 },
    /// A window was destroyed.
    DestroyNotify { window: u32 },
    /// A pointer button was pressed on `window` at the given root
    /// coordinates.
    ButtonPress { window: u32, root_x: i16, root_y: i16 },
    /// The pointer moved to the given root coordinates.
    MotionNotify { root_x: i16, root_y: i16 },
    /// A pointer button was released.
    ButtonRelease,
    /// A protocol-level client message; informational, never acted on.
    ClientMessage { window: u32 },
    /// Any event kind the manager does not handle.
    Unknown,
}

/// An outbound protocol request the manager decided to issue.  Each one is
/// performed outside the library, and the sequence number the server
/// assigns to it is reported back through `WmState::note_request`.
#[derive(Clone, Copy, Debug, PartialEq, Eq)]
pub enum Action {
    /// Create the frame window with this geometry.
    CreateFrame { frame: u32, x: i32, y: i32, width: u32, height: u32 },
    /// Reparent `window` under `parent` at the given parent-relative
    /// position.
    Reparent { window: u32, parent: u32, x: i32, y: i32 },
    /// Map (display) a window.
    MapWindow { window: u32 },
    /// Unmap (hide) a window.
    UnmapWindow { window: u32 },
    /// Configure a window: only the `Some` fields are to change.
    ConfigureWindow {
        window: u32,
        x: Option<i32>,
        y: Option<i32>,
        width: Option<u32>,
        height: Option<u32>,
        sibling: Option<u32>,
        stack_mode: Option<u32>,
    },
    /// Destroy a window.
    DestroyWindow { window: u32 },
    /// Send the cooperative-close message to a client window.
    SendDeleteMessage { window: u32 },
    /// Grab pointer motion on behalf of a drag that starts on `window`.
    GrabPointer { window: u32 },
    /// Release the pointer grab when a drag ends.
    UngrabPointer,
}

/// A configure action that moves `window` to `(x, y)` and changes nothing
/// else; what a drag in progress issues.
pub open spec fn move_action(window: u32, x: i32, y: i32) -> Action {
    Action::ConfigureWindow {
        window,
        x: Some(x),
        y: Some(y),
        width: None,
        height: None,
        sibling: None,
        stack_mode: None,
    }
}

} // verus!
