//! Core logic of a reparenting window manager: the registry that maps client
//! windows to their manager-created frames, the filter that suppresses echoes
//! of the manager's own requests, the drag state machine, the configure and
//! close handlers, and the event dispatcher that ties them together.
//!
//! The library is pure state-machine logic over plain values: window
//! identifiers, geometry, sequence numbers and events come in, and a list of
//! outbound protocol requests comes out.  Everything that talks to a display
//! server lives outside the library.

pub mod errors;
pub mod geometry;
pub mod registry;
pub mod seqfilter;
pub mod events;
pub mod wm;
pub mod startup;

pub use errors::WmError;
pub use geometry::{Geometry, ConfigureRequest, BORDER_WIDTH};
pub use registry::{ManagedWindow, WindowRegistry};
pub use seqfilter::SequenceFilter;
pub use events::{WmEvent, Action};
pub use wm::{WmState, DragSession, DragState};
pub use startup::{AttachOutcome, classify_attach};
