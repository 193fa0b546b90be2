use vstd::prelude::*;
use crate::errors::WmError;
use crate::events::{Action, WmEvent, move_action};
use crate::geometry::{
    Geometry, ConfigureRequest, merged_geometry, wire_geometry, min_one, clamp_coord,
    clamp_coord_exec, apply_configure, BORDER_WIDTH,
};
use crate::registry::{
    ManagedWindow, WindowRegistry, contains_client, contains_frame,
    lemma_client_entry_unique, lemma_remove_keeps_other_client,
    lemma_update_keeps_clients, lemma_push_keeps_clients,
};
use crate::seqfilter::SequenceFilter;

verus! {

/// The record of an in-progress interactive move: the window being dragged,
/// the pointer's root coordinates when the drag started, and the frame
/// geometry at that moment.
#[derive(Clone, Copy, Debug, PartialEq, Eq)]
pub struct DragSession {
    /// The client window being dragged; always a live registry entry.
    pub target: u32,
    /// Pointer root x coordinate at drag start.
    pub pointer_x: i16,
    /// Pointer root y coordinate at drag start.
    pub pointer_y: i16,
    /// Frame geometry at drag start.
    pub anchor: Geometry,
}

/// The drag controller's state: at most one drag exists at a time.
#[derive(Clone, Copy, Debug, PartialEq, Eq)]
pub enum DragState {
    Idle,
    Dragging(DragSession),
}

/// The whole manager-core state: the window registry, the self-issued
/// request filter, and the drag controller.
pub struct WmState {
    pub registry: WindowRegistry,
    pub filter: SequenceFilter,
    pub drag: DragState,
}

/// The root-relative x position a drag at `s` puts the frame at when the
/// pointer stands at `root_x`: the anchored frame origin plus the pointer's
/// displacement since the drag began.
pub open spec fn drag_x(s: DragSession, root_x: i16) -> int {
    s.anchor.x + root_x - s.pointer_x
}

/// The y counterpart of `drag_x`.
pub open spec fn drag_y(s: DragSession, root_y: i16) -> int {
    s.anchor.y + root_y - s.pointer_y
}

/// A drag state with the session cleared if it targets `window`; how an
/// entry's removal cancels a drag of that window.
pub open spec fn clear_if_target(d: DragState, window: u32) -> DragState {
    if d matches DragState::Dragging(s) && s.target == window {
        DragState::Idle
    } else {
        d
    }
}

/// The two configure actions a request on a managed window produces: the
/// frame takes the merged geometry enlarged by the border on every side
/// (and any requested restacking), and the client is sized to fill the
/// frame's interior.
pub open spec fn managed_configure_actions(
    e: ManagedWindow,
    g2: Geometry,
    req: ConfigureRequest,
) -> Seq<Action> {
    seq![
        Action::ConfigureWindow {
            window: e.frame_id,
            x: Some(g2.x),
            y: Some(g2.y),
            width: Some((g2.width + 2 * BORDER_WIDTH) as u32),
            height: Some((g2.height + 2 * BORDER_WIDTH) as u32),
            sibling: req.sibling,
            stack_mode: req.stack_mode,
        },
        Action::ConfigureWindow {
            window: e.client_id,
            x: Some(BORDER_WIDTH as i32),
            y: Some(BORDER_WIDTH as i32),
            width: Some(g2.width),
            height: Some(g2.height),
            sibling: None,
            stack_mode: None,
        },
    ]
}

/// The raw pass-through of a configure request for a window without a
/// frame: exactly the fields the client set, dimensions clamped to a
/// minimum of 1.
pub open spec fn raw_forward_action(req: ConfigureRequest) -> Action {
    Action::ConfigureWindow {
        window: req.window,
        x: if req.x is Some { Some(req.x->0 as i32) } else { None },
        y: if req.y is Some { Some(req.y->0 as i32) } else { None },
        width: if req.width is Some { Some(min_one(req.width->0)) } else { None },
        height: if req.height is Some { Some(min_one(req.height->0)) } else { None },
        sibling: req.sibling,
        stack_mode: req.stack_mode,
    }
}

/// What handling a configure request does.  For a managed window the
/// stored geometry becomes the merge of the old geometry with the request
/// (unspecified fields unchanged) and the frame and client are
/// reconfigured; for an unmanaged window the request is forwarded as it
/// stands.  The filter and the drag state are untouched.
pub open spec fn configure_post(
    pre: WmState,
    post: WmState,
    req: ConfigureRequest,
    acts: Seq<Action>,
) -> bool {
    &&& post.filter@ == pre.filter@
    &&& post.drag == pre.drag
    &&& contains_client(pre.registry@, req.window) ==> exists|i: int|
            0 <= i < pre.registry@.len()
            && (#[trigger] pre.registry@[i]).client_id == req.window
            && post.registry@ == pre.registry@.update(i, ManagedWindow {
                geometry: merged_geometry(pre.registry@[i].geometry, req),
                ..pre.registry@[i]
            })
            && acts == managed_configure_actions(
                pre.registry@[i],
                merged_geometry(pre.registry@[i].geometry, req),
                req,
            )
    &&& !contains_client(pre.registry@, req.window)
            ==> post.registry@ == pre.registry@ && acts == seq![raw_forward_action(req)]
}

/// The actions that frame a newly managed window: create the frame around
/// the client's geometry, reparent the client into it, then map frame and
/// client in that order.
pub open spec fn map_actions_new(window: u32, frame_id: u32, g: Geometry) -> Seq<Action> {
    seq![
        Action::CreateFrame {
            frame: frame_id,
            x: g.x,
            y: g.y,
            width: (g.width + 2 * BORDER_WIDTH) as u32,
            height: (g.height + 2 * BORDER_WIDTH) as u32,
        },
        Action::Reparent { window, parent: frame_id, x: BORDER_WIDTH as i32, y: BORDER_WIDTH as i32 },
        Action::MapWindow { window: frame_id },
        Action::MapWindow { window },
    ]
}

/// What handling a map request does.  An already-managed window is simply
/// mapped again; a new window is registered with a freshly created frame
/// and both are mapped, the entry marked `mapped`.  A map request whose
/// fresh frame identifier collides with a live frame is dropped.  The
/// filter and the drag state are untouched.
pub open spec fn map_request_post(
    pre: WmState,
    post: WmState,
    window: u32,
    frame_id: u32,
    x: i16,
    y: i16,
    width: u16,
    height: u16,
    supports_delete: bool,
    acts: Seq<Action>,
) -> bool {
    &&& post.filter@ == pre.filter@
    &&& post.drag == pre.drag
    &&& contains_client(pre.registry@, window) ==> exists|i: int|
            0 <= i < pre.registry@.len()
            && (#[trigger] pre.registry@[i]).client_id == window
            && post.registry@ == pre.registry@.update(i, ManagedWindow {
                mapped: true,
                ..pre.registry@[i]
            })
            && acts == seq![
                Action::MapWindow { window: pre.registry@[i].frame_id },
                Action::MapWindow { window },
            ]
    &&& !contains_client(pre.registry@, window) && contains_frame(pre.registry@, frame_id)
            ==> post.registry@ == pre.registry@ && acts == Seq::<Action>::empty()
    &&& !contains_client(pre.registry@, window) && !contains_frame(pre.registry@, frame_id)
            ==> post.registry@ == pre.registry@.push(ManagedWindow {
                    client_id: window,
                    frame_id,
                    geometry: wire_geometry(x, y, width, height),
                    supports_delete,
                    mapped: true,
                })
                && acts == map_actions_new(window, frame_id, wire_geometry(x, y, width, height))
}

/// The filter transition any observed notification sequence number causes:
/// afterwards a number is pending exactly when it was pending and is
/// strictly newer than the observed one.
pub open spec fn filter_observed(pre: Seq<u64>, post: Seq<u64>, sequence: u64) -> bool {
    forall|x: u64| post.contains(x) <==> pre.contains(x) && x > sequence
}

/// What handling an unmap notification does.  The filter observes the
/// sequence number either way.  An unmanaged window is silently dropped.
/// A managed window whose unmap echoes a self-issued request is only
/// marked unmapped; otherwise the unmap is a client withdrawal: the entry
/// is removed, its frame destroyed, and a drag of that window cancelled.
pub open spec fn unmap_post(
    pre: WmState,
    post: WmState,
    window: u32,
    sequence: u64,
    acts: Seq<Action>,
) -> bool {
    let suppressed = pre.filter@.contains(sequence);
    &&& filter_observed(pre.filter@, post.filter@, sequence)
    &&& !contains_client(pre.registry@, window)
            ==> post.registry@ == pre.registry@ && post.drag == pre.drag
                && acts == Seq::<Action>::empty()
    &&& contains_client(pre.registry@, window) && suppressed ==> exists|i: int|
            0 <= i < pre.registry@.len()
            && (#[trigger] pre.registry@[i]).client_id == window
            && post.registry@ == pre.registry@.update(i, ManagedWindow {
                mapped: false,
                ..pre.registry@[i]
            })
            && post.drag == pre.drag
            && acts == Seq::<Action>::empty()
    &&& contains_client(pre.registry@, window) && !suppressed ==> exists|i: int|
            0 <= i < pre.registry@.len()
            && (#[trigger] pre.registry@[i]).client_id == window
            && post.registry@ == pre.registry@.remove(i)
            && post.drag == clear_if_target(pre.drag, window)
            && acts == seq![Action::DestroyWindow { window: pre.registry@[i].frame_id }]
}

/// What handling a destroy notification does: the entry is removed
/// unconditionally, its frame destroyed, and a drag of that window
/// cancelled; an unmanaged window is silently dropped.  The filter is
/// untouched.
pub open spec fn destroy_post(pre: WmState, post: WmState, window: u32, acts: Seq<Action>) -> bool {
    &&& post.filter@ == pre.filter@
    &&& !contains_client(pre.registry@, window)
            ==> post.registry@ == pre.registry@ && post.drag == pre.drag
                && acts == Seq::<Action>::empty()
    &&& contains_client(pre.registry@, window) ==> exists|i: int|
            0 <= i < pre.registry@.len()
            && (#[trigger] pre.registry@[i]).client_id == window
            && post.registry@ == pre.registry@.remove(i)
            && post.drag == clear_if_target(pre.drag, window)
            && acts == seq![Action::DestroyWindow { window: pre.registry@[i].frame_id }]
}

/// What a button press does.  Pressed on a live frame while no drag is
/// active, it starts a drag of that frame's client, anchored at the
/// current pointer position and frame geometry, and grabs pointer motion.
/// A press while already dragging, or on anything but a live frame, is
/// ignored.  The registry and the filter are untouched.
pub open spec fn button_press_post(
    pre: WmState,
    post: WmState,
    window: u32,
    root_x: i16,
    root_y: i16,
    acts: Seq<Action>,
) -> bool {
    &&& post.registry@ == pre.registry@
    &&& post.filter@ == pre.filter@
    &&& pre.drag is Dragging ==> post.drag == pre.drag && acts == Seq::<Action>::empty()
    &&& pre.drag is Idle && !contains_frame(pre.registry@, window)
            ==> post.drag == pre.drag && acts == Seq::<Action>::empty()
    &&& pre.drag is Idle && contains_frame(pre.registry@, window) ==> exists|w: ManagedWindow|
            #[trigger] pre.registry@.contains(w) && w.frame_id == window
            && post.drag == DragState::Dragging(DragSession {
                target: w.client_id,
                pointer_x: root_x,
                pointer_y: root_y,
                anchor: w.geometry,
            })
            && acts == seq![Action::GrabPointer { window }]
}

/// What a motion notification does while dragging: the frame is moved so
/// that its new position equals the anchored geometry plus the pointer's
/// displacement since the drag began — exactly, with no rounding — and the
/// stored geometry follows, clamped into the wire range.  Motion while
/// idle is ignored.  The filter is untouched and the drag stays as it was.
pub open spec fn motion_post(
    pre: WmState,
    post: WmState,
    root_x: i16,
    root_y: i16,
    acts: Seq<Action>,
) -> bool {
    &&& post.filter@ == pre.filter@
    &&& post.drag == pre.drag
    &&& pre.drag is Idle ==> post.registry@ == pre.registry@ && acts == Seq::<Action>::empty()
    &&& pre.drag matches DragState::Dragging(s) ==> exists|i: int|
            0 <= i < pre.registry@.len()
            && (#[trigger] pre.registry@[i]).client_id == s.target
            && post.registry@ == pre.registry@.update(i, ManagedWindow {
                geometry: Geometry {
                    x: clamp_coord(drag_x(s, root_x)),
                    y: clamp_coord(drag_y(s, root_y)),
                    ..pre.registry@[i].geometry
                },
                ..pre.registry@[i]
            })
            && acts == seq![move_action(
                pre.registry@[i].frame_id,
                drag_x(s, root_x) as i32,
                drag_y(s, root_y) as i32,
            )]
            && drag_x(s, root_x) as i32 == drag_x(s, root_x)
            && drag_y(s, root_y) as i32 == drag_y(s, root_y)
}

/// What a button release does: an active drag ends and the pointer grab is
/// released; no further geometry change is issued, so the last
/// motion-driven position stands.  A release while idle is ignored.  The
/// registry and the filter are untouched.
pub open spec fn release_post(pre: WmState, post: WmState, acts: Seq<Action>) -> bool {
    &&& post.registry@ == pre.registry@
    &&& post.filter@ == pre.filter@
    &&& pre.drag is Idle ==> post.drag == pre.drag && acts == Seq::<Action>::empty()
    &&& pre.drag is Dragging
            ==> post.drag == DragState::Idle && acts == seq![Action::UngrabPointer]
}

impl WmState {
    /// The core's invariant: the registry is well formed, and an active
    /// drag targets a live registry entry with a well-formed anchor.
    pub open spec fn wf(self) -> bool {
        &&& self.registry.wf()
        &&& self.drag matches DragState::Dragging(s)
                ==> contains_client(self.registry@, s.target) && s.anchor.wf()
    }

    /// A fresh manager state: nothing managed, nothing pending, no drag.
    pub fn new() -> (r: WmState)
        ensures
            r.wf(),
            r.registry@ == Seq::<ManagedWindow>::empty(),
            r.filter@ == Seq::<u64>::empty(),
            r.drag == DragState::Idle,
    {
        WmState {
            registry: WindowRegistry::new(),
            filter: SequenceFilter::new(),
            drag: DragState::Idle,
        }
    }

    /// Records the sequence number of a request the manager just issued, so
    /// that the notification echoing it will be suppressed.
    pub fn note_request(&mut self, sequence: u64)
        requires
            old(self).wf(),
        ensures
            final(self).wf(),
            final(self).filter@ == old(self).filter@.push(sequence),
            final(self).registry@ == old(self).registry@,
            final(self).drag == old(self).drag,
    {
        self.filter.note_request(sequence);
    }

    /// Handles a configure request: honours every field the client set and
    /// leaves the rest unchanged, reconfiguring the frame (border added)
    /// and the client (sized to the frame's interior); a window with no
    /// frame yet has the raw request forwarded to it directly.
    pub fn handle_configure_request(&mut self, req: ConfigureRequest) -> (acts: Vec<Action>)
        requires
            old(self).wf(),
        ensures
            final(self).wf(),
            configure_post(*old(self), *final(self), req, acts@),
    {
        let mut acts: Vec<Action> = Vec::new();
        match self.registry.lookup(req.window) {
            Some(w) => {
                let g2 = apply_configure(w.geometry, req);
                let _found = self.registry.set_geometry(req.window, g2);
                proof {
                    let i = choose|i: int|
                        0 <= i < old(self).registry@.len()
                        && (#[trigger] old(self).registry@[i]).client_id == req.window
                        && self.registry@ == old(self).registry@.update(i, ManagedWindow {
                            geometry: g2,
                            ..old(self).registry@[i]
                        });
                    lemma_client_entry_unique(old(self).registry@, w, i);
                    match old(self).drag {
                        DragState::Dragging(s) => {
                            lemma_update_keeps_clients(
                                old(self).registry@,
                                i,
                                ManagedWindow { geometry: g2, ..old(self).registry@[i] },
                                s.target,
                            );
                        }
                        DragState::Idle => {}
                    }
                }
                acts.push(Action::ConfigureWindow {
                    window: w.frame_id,
                    x: Some(g2.x),
                    y: Some(g2.y),
                    width: Some(g2.width + 2 * BORDER_WIDTH),
                    height: Some(g2.height + 2 * BORDER_WIDTH),
                    sibling: req.sibling,
                    stack_mode: req.stack_mode,
                });
                acts.push(Action::ConfigureWindow {
                    window: w.client_id,
                    x: Some(BORDER_WIDTH as i32),
                    y: Some(BORDER_WIDTH as i32),
                    width: Some(g2.width),
                    height: Some(g2.height),
                    sibling: None,
                    stack_mode: None,
                });
                proof {
                    assert(acts@ =~= managed_configure_actions(w, g2, req));
                }
            }
            None => {
                acts.push(Action::ConfigureWindow {
                    window: req.window,
                    x: match req.x {
                        Some(v) => Some(v as i32),
                        None => None,
                    },
                    y: match req.y {
                        Some(v) => Some(v as i32),
                        None => None,
                    },
                    width: match req.width {
                        Some(v) => Some(if v == 0 { 1 } else { v as u32 }),
                        None => None,
                    },
                    height: match req.height {
                        Some(v) => Some(if v == 0 { 1 } else { v as u32 }),
                        None => None,
                    },
                    sibling: req.sibling,
                    stack_mode: req.stack_mode,
                });
                proof {
                    assert(acts@ =~= seq![raw_forward_action(req)]);
                }
            }
        }
        acts
    }

    /// Handles a map request for `window`.  An unmanaged window is
    /// registered around the fresh frame `frame_id` with its current
    /// geometry, the frame is created and the client reparented into it,
    /// and frame and client are mapped, in that order; an already-managed
    /// window is mapped again.  Either way the entry is marked `mapped`.
    pub fn handle_map_request(
        &mut self,
        window: u32,
        frame_id: u32,
        x: i16,
        y: i16,
        width: u16,
        height: u16,
        supports_delete: bool,
    ) -> (acts: Vec<Action>)
        requires
            old(self).wf(),
        ensures
            final(self).wf(),
            map_request_post(
                *old(self), *final(self), window, frame_id, x, y, width, height,
                supports_delete, acts@,
            ),
    {
        let mut acts: Vec<Action> = Vec::new();
        match self.registry.lookup(window) {
            Some(w) => {
                let _found = self.registry.set_mapped(window, true);
                proof {
                    let i = choose|i: int|
                        0 <= i < old(self).registry@.len()
                        && (#[trigger] old(self).registry@[i]).client_id == window
                        && self.registry@ == old(self).registry@.update(i, ManagedWindow {
                            mapped: true,
                            ..old(self).registry@[i]
                        });
                    lemma_client_entry_unique(old(self).registry@, w, i);
                    match old(self).drag {
                        DragState::Dragging(s) => {
                            lemma_update_keeps_clients(
                                old(self).registry@,
                                i,
                                ManagedWindow { mapped: true, ..old(self).registry@[i] },
                                s.target,
                            );
                        }
                        DragState::Idle => {}
                    }
                }
                acts.push(Action::MapWindow { window: w.frame_id });
                acts.push(Action::MapWindow { window });
                proof {
                    assert(acts@ =~= seq![
                        Action::MapWindow { window: w.frame_id },
                        Action::MapWindow { window },
                    ]);
                }
            }
            None => {
                match self.registry.register(window, frame_id, x, y, width, height, supports_delete) {
                    Err(_) => {
                        // The fresh frame identifier collides with a live
                        // frame: drop the request.
                    }
                    Ok(()) => {
                        let ghost pushed = self.registry@;
                        let ghost pre = old(self).registry@;
                        let ghost n = pre.len() as int;
                        proof {
                            assert(pushed[n].client_id == window);
                            assert(contains_client(pushed, window));
                        }
                        let _found = self.registry.set_mapped(window, true);
                        let g = Geometry::from_wire(x, y, width, height);
                        proof {
                            let i = choose|i: int|
                                0 <= i < pushed.len()
                                && (#[trigger] pushed[i]).client_id == window
                                && self.registry@ == pushed.update(i, ManagedWindow {
                                    mapped: true,
                                    ..pushed[i]
                                });
                            if i < n {
                                assert(pushed[i] == pre[i]);
                                assert(contains_client(pre, window));
                                assert(false);
                            }
                            assert(self.registry@ =~= pre.push(ManagedWindow {
                                client_id: window,
                                frame_id,
                                geometry: wire_geometry(x, y, width, height),
                                supports_delete,
                                mapped: true,
                            }));
                            match old(self).drag {
                                DragState::Dragging(s) => {
                                    lemma_push_keeps_clients(pre, ManagedWindow {
                                        client_id: window,
                                        frame_id,
                                        geometry: wire_geometry(x, y, width, height),
                                        supports_delete,
                                        mapped: true,
                                    }, s.target);
                                }
                                DragState::Idle => {}
                            }
                        }
                        acts.push(Action::CreateFrame {
                            frame: frame_id,
                            x: g.x,
                            y: g.y,
                            width: g.width + 2 * BORDER_WIDTH,
                            height: g.height + 2 * BORDER_WIDTH,
                        });
                        acts.push(Action::Reparent {
                            window,
                            parent: frame_id,
                            x: BORDER_WIDTH as i32,
                            y: BORDER_WIDTH as i32,
                        });
                        acts.push(Action::MapWindow { window: frame_id });
                        acts.push(Action::MapWindow { window });
                        proof {
                            assert(acts@ =~= map_actions_new(
                                window, frame_id, wire_geometry(x, y, width, height),
                            ));
                        }
                    }
                }
            }
        }
        acts
    }

    /// Handles an unmap notification.  The sequence filter decides whether
    /// the unmap merely echoes a self-issued request (then the entry is
    /// only marked unmapped) or is a client withdrawal (then the entry is
    /// unregistered and its frame destroyed).  Unknown windows are
    /// silently dropped.
    pub fn handle_unmap_notify(&mut self, window: u32, sequence: u64) -> (acts: Vec<Action>)
        requires
            old(self).wf(),
        ensures
            final(self).wf(),
            unmap_post(*old(self), *final(self), window, sequence, acts@),
    {
        let suppressed = self.filter.should_suppress(sequence);
        let mut acts: Vec<Action> = Vec::new();
        match self.registry.lookup(window) {
            None => {}
            Some(w) => {
                if suppressed {
                    let _found = self.registry.set_mapped(window, false);
                    proof {
                        let i = choose|i: int|
                            0 <= i < old(self).registry@.len()
                            && (#[trigger] old(self).registry@[i]).client_id == window
                            && self.registry@ == old(self).registry@.update(i, ManagedWindow {
                                mapped: false,
                                ..old(self).registry@[i]
                            });
                        match old(self).drag {
                            DragState::Dragging(s) => {
                                lemma_update_keeps_clients(
                                    old(self).registry@,
                                    i,
                                    ManagedWindow { mapped: false, ..old(self).registry@[i] },
                                    s.target,
                                );
                            }
                            DragState::Idle => {}
                        }
                    }
                } else {
                    self.remove_entry(window);
                    acts.push(Action::DestroyWindow { window: w.frame_id });
                    proof {
                        let i = choose|i: int|
                            0 <= i < old(self).registry@.len()
                            && (#[trigger] old(self).registry@[i]).client_id == window
                            && self.registry@ == old(self).registry@.remove(i);
                        lemma_client_entry_unique(old(self).registry@, w, i);
                        assert(acts@ =~= seq![Action::DestroyWindow {
                            window: old(self).registry@[i].frame_id,
                        }]);
                    }
                }
            }
        }
        acts
    }

    /// Handles a destroy notification: the window's entry is removed
    /// unconditionally, its frame destroyed, and a drag of that window
    /// cancelled; unknown windows are silently dropped.
    pub fn handle_destroy_notify(&mut self, window: u32) -> (acts: Vec<Action>)
        requires
            old(self).wf(),
        ensures
            final(self).wf(),
            destroy_post(*old(self), *final(self), window, acts@),
    {
        let mut acts: Vec<Action> = Vec::new();
        match self.registry.lookup(window) {
            None => {}
            Some(w) => {
                self.remove_entry(window);
                acts.push(Action::DestroyWindow { window: w.frame_id });
                proof {
                    let i = choose|i: int|
                        0 <= i < old(self).registry@.len()
                        && (#[trigger] old(self).registry@[i]).client_id == window
                        && self.registry@ == old(self).registry@.remove(i);
                    lemma_client_entry_unique(old(self).registry@, w, i);
                    assert(acts@ =~= seq![Action::DestroyWindow {
                        window: old(self).registry@[i].frame_id,
                    }]);
                }
            }
        }
        acts
    }

    /// Unregisters `window` and cancels a drag that targets it; the shared
    /// tail of unmap- and destroy-notification handling.
    fn remove_entry(&mut self, window: u32)
        requires
            old(self).wf(),
            contains_client(old(self).registry@, window),
        ensures
            final(self).wf(),
            final(self).filter@ == old(self).filter@,
            final(self).drag == clear_if_target(old(self).drag, window),
            exists|i: int|
                0 <= i < old(self).registry@.len()
                && (#[trigger] old(self).registry@[i]).client_id == window
                && final(self).registry@ == old(self).registry@.remove(i),
    {
        let r = self.registry.unregister(window);
        match self.drag {
            DragState::Dragging(s) => {
                if s.target == window {
                    self.drag = DragState::Idle;
                }
            }
            DragState::Idle => {}
        }
        proof {
            let i = choose|i: int|
                0 <= i < old(self).registry@.len()
                && (#[trigger] old(self).registry@[i]).client_id == window
                && self.registry@ == old(self).registry@.remove(i)
                && r == Ok::<u32, WmError>(old(self).registry@[i].frame_id);
            match old(self).drag {
                DragState::Dragging(s) => {
                    if s.target != window {
                        lemma_remove_keeps_other_client(old(self).registry@, i, s.target);
                    }
                }
                DragState::Idle => {}
            }
        }
    }

    /// Handles a button press at root coordinates `(root_x, root_y)` on
    /// `window`: pressed on a live frame while idle it starts a drag and
    /// grabs pointer motion; otherwise it is ignored.
    pub fn handle_button_press(
        &mut self,
        window: u32,
        root_x: i16,
        root_y: i16,
    ) -> (acts: Vec<Action>)
        requires
            old(self).wf(),
        ensures
            final(self).wf(),
            button_press_post(*old(self), *final(self), window, root_x, root_y, acts@),
    {
        let mut acts: Vec<Action> = Vec::new();
        let idle = match self.drag {
            DragState::Idle => true,
            DragState::Dragging(_) => false,
        };
        if idle {
            match self.registry.lookup_by_frame(window) {
                None => {}
                Some(w) => {
                    self.drag = DragState::Dragging(DragSession {
                        target: w.client_id,
                        pointer_x: root_x,
                        pointer_y: root_y,
                        anchor: w.geometry,
                    });
                    acts.push(Action::GrabPointer { window });
                    proof {
                        assert(acts@ =~= seq![Action::GrabPointer { window }]);
                        let j = choose|j: int|
                            0 <= j < self.registry@.len() && self.registry@[j] == w;
                        assert(self.registry@[j].client_id == w.client_id);
                        assert(contains_client(self.registry@, w.client_id));
                    }
                }
            }
        }
        acts
    }

    /// Handles pointer motion while a drag is active: issues the one
    /// configure request that moves the frame to the anchored position
    /// plus the pointer's displacement, exactly, and stores that position
    /// (clamped into the wire range).  Motion while idle is ignored.
    pub fn handle_motion(&mut self, root_x: i16, root_y: i16) -> (acts: Vec<Action>)
        requires
            old(self).wf(),
        ensures
            final(self).wf(),
            motion_post(*old(self), *final(self), root_x, root_y, acts@),
    {
        let mut acts: Vec<Action> = Vec::new();
        let session = match self.drag {
            DragState::Idle => None,
            DragState::Dragging(s) => Some(s),
        };
        match session {
            None => {}
            Some(s) => {
                match self.registry.lookup(s.target) {
                    None => {
                        // Unreachable: the invariant keeps the drag target
                        // registered.
                    }
                    Some(w) => {
                        let px = s.anchor.x + (root_x as i32 - s.pointer_x as i32);
                        let py = s.anchor.y + (root_y as i32 - s.pointer_y as i32);
                        let ng = Geometry {
                            x: clamp_coord_exec(px),
                            y: clamp_coord_exec(py),
                            width: w.geometry.width,
                            height: w.geometry.height,
                        };
                        let _found = self.registry.set_geometry(s.target, ng);
                        acts.push(Action::ConfigureWindow {
                            window: w.frame_id,
                            x: Some(px),
                            y: Some(py),
                            width: None,
                            height: None,
                            sibling: None,
                            stack_mode: None,
                        });
                        proof {
                            let i = choose|i: int|
                                0 <= i < old(self).registry@.len()
                                && (#[trigger] old(self).registry@[i]).client_id == s.target
                                && self.registry@ == old(self).registry@.update(i, ManagedWindow {
                                    geometry: ng,
                                    ..old(self).registry@[i]
                                });
                            lemma_client_entry_unique(old(self).registry@, w, i);
                            lemma_update_keeps_clients(
                                old(self).registry@,
                                i,
                                ManagedWindow { geometry: ng, ..old(self).registry@[i] },
                                s.target,
                            );
                            assert(acts@ =~= seq![move_action(
                                old(self).registry@[i].frame_id,
                                drag_x(s, root_x) as i32,
                                drag_y(s, root_y) as i32,
                            )]);
                        }
                    }
                }
            }
        }
        acts
    }

    /// Handles a button release: an active drag ends and the pointer grab
    /// is released; the last motion-driven position stands, untouched.
    pub fn handle_button_release(&mut self) -> (acts: Vec<Action>)
        requires
            old(self).wf(),
        ensures
            final(self).wf(),
            release_post(*old(self), *final(self), acts@),
    {
        let mut acts: Vec<Action> = Vec::new();
        match self.drag {
            DragState::Idle => {}
            DragState::Dragging(_) => {
                self.drag = DragState::Idle;
                acts.push(Action::UngrabPointer);
                proof {
                    assert(acts@ =~= seq![Action::UngrabPointer]);
                }
            }
        }
        acts
    }

    /// The main per-event step: routes one incoming event to its handler
    /// and returns the outbound requests to issue.  Unrecognised event
    /// kinds and informational client messages change nothing.
    ///
    /// Exactly one event is handled per call; the loop around it performs
    /// the returned actions and reports their sequence numbers back
    /// through `note_request` before pulling the next event.
    pub fn dispatch(&mut self, event: WmEvent) -> (acts: Vec<Action>)
        requires
            old(self).wf(),
        ensures
            final(self).wf(),
            event matches WmEvent::ConfigureRequest(req)
                ==> configure_post(*old(self), *final(self), req, acts@),
            event matches WmEvent::MapRequest {
                window, frame_id, x, y, width, height, supports_delete,
            } ==> map_request_post(
                *old(self), *final(self), window, frame_id, x, y, width, height,
                supports_delete, acts@,
            ),
            event matches WmEvent::UnmapNotify { window, sequence }
                ==> unmap_post(*old(self), *final(self), window, sequence, acts@),
            event matches WmEvent::DestroyNotify { window }
                ==> destroy_post(*old(self), *final(self), window, acts@),
            event matches WmEvent::ButtonPress { window, root_x, root_y }
                ==> button_press_post(*old(self), *final(self), window, root_x, root_y, acts@),
            event matches WmEvent::MotionNotify { root_x, root_y }
                ==> motion_post(*old(self), *final(self), root_x, root_y, acts@),
            event is ButtonRelease ==> release_post(*old(self), *final(self), acts@),
            event is ClientMessage || event is Unknown
                ==> *final(self) == *old(self) && acts@ == Seq::<Action>::empty(),
    {
        match event {
            WmEvent::ConfigureRequest(req) => self.handle_configure_request(req),
            WmEvent::MapRequest { window, frame_id, x, y, width, height, supports_delete } => self
                .handle_map_request(window, frame_id, x, y, width, height, supports_delete),
            WmEvent::UnmapNotify { window, sequence } => self.handle_unmap_notify(
                window,
                sequence,
            ),
            WmEvent::DestroyNotify { window } => self.handle_destroy_notify(window),
            WmEvent::ButtonPress { window, root_x, root_y } => self.handle_button_press(
                window,
                root_x,
                root_y,
            ),
            WmEvent::MotionNotify { root_x, root_y } => self.handle_motion(root_x, root_y),
            WmEvent::ButtonRelease => self.handle_button_release(),
            WmEvent::ClientMessage { window: _ } => Vec::new(),
            WmEvent::Unknown => Vec::new(),
        }
    }

    /// Decides how to close `window` on an external "close window" command.
    ///
    /// If the client advertised cooperative-close support, the polite close
    /// message is sent and the client's own shutdown surfaces later as an
    /// ordinary destroy or unmap notification.  Otherwise the distinct
    /// outcome `UngracefulCloseRequired` is surfaced: forceful destruction
    /// is never taken implicitly.  An unknown window yields
    /// `UnknownWindow`.
    pub fn close_window(&self, window: u32) -> (r: Result<Action, WmError>)
        requires
            self.wf(),
        ensures
            !contains_client(self.registry@, window)
                ==> r == Err::<Action, WmError>(WmError::UnknownWindow),
            contains_client(self.registry@, window) ==> exists|w: ManagedWindow|
                    #[trigger] self.registry@.contains(w) && w.client_id == window
                    && (w.supports_delete
                        ==> r == Ok::<Action, WmError>(Action::SendDeleteMessage { window }))
                    && (!w.supports_delete
                        ==> r == Err::<Action, WmError>(WmError::UngracefulCloseRequired)),
    {
        match self.registry.lookup(window) {
            None => Err(WmError::UnknownWindow),
            Some(w) => {
                if w.supports_delete {
                    Ok(Action::SendDeleteMessage { window })
                } else {
                    Err(WmError::UngracefulCloseRequired)
                }
            }
        }
    }

    /// Decides the separate, explicit force-destroy command: destroying the
    /// client window outright.  The registry entry is not touched here; the
    /// destruction surfaces as a destroy notification and is cleaned up by
    /// the dispatcher like any other.
    pub fn force_destroy(&self, window: u32) -> (r: Result<Action, WmError>)
        requires
            self.wf(),
        ensures
            contains_client(self.registry@, window)
                ==> r == Ok::<Action, WmError>(Action::DestroyWindow { window }),
            !contains_client(self.registry@, window)
                ==> r == Err::<Action, WmError>(WmError::UnknownWindow),
    {
        match self.registry.lookup(window) {
            None => Err(WmError::UnknownWindow),
            Some(_) => Ok(Action::DestroyWindow { window }),
        }
    }
}

} // verus!
