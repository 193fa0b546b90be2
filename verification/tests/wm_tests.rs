use framewm::{
    Action, AttachOutcome, ConfigureRequest, DragSession, DragState, Geometry, WmError, WmEvent,
    WmState, classify_attach, BORDER_WIDTH,
};

fn map_w(st: &mut WmState) -> Vec<Action> {
    // Client window 7, fresh frame 8, geometry (10, 10, 200, 100).
    st.handle_map_request(7, 8, 10, 10, 200, 100, true)
}

#[test]
fn map_request_registers_and_maps() {
    let mut st = WmState::new();
    let acts = map_w(&mut st);
    let w = st.registry.lookup(7).expect("entry for the new client");
    assert_eq!(w.client_id, 7);
    assert_eq!(w.frame_id, 8);
    assert_eq!(w.geometry, Geometry { x: 10, y: 10, width: 200, height: 100 });
    assert!(w.mapped);
    assert!(w.supports_delete);
    assert_eq!(st.registry.len(), 1);
    assert_eq!(
        acts,
        vec![
            Action::CreateFrame {
                frame: 8,
                x: 10,
                y: 10,
                width: 200 + 2 * BORDER_WIDTH,
                height: 100 + 2 * BORDER_WIDTH,
            },
            Action::Reparent { window: 7, parent: 8, x: BORDER_WIDTH as i32, y: BORDER_WIDTH as i32 },
            Action::MapWindow { window: 8 },
            Action::MapWindow { window: 7 },
        ]
    );
}

#[test]
fn map_request_for_managed_window_maps_again() {
    let mut st = WmState::new();
    map_w(&mut st);
    let acts = st.handle_map_request(7, 99, 0, 0, 5, 5, false);
    assert_eq!(st.registry.len(), 1);
    let w = st.registry.lookup(7).unwrap();
    assert_eq!(w.frame_id, 8);
    assert_eq!(w.geometry, Geometry { x: 10, y: 10, width: 200, height: 100 });
    assert_eq!(
        acts,
        vec![Action::MapWindow { window: 8 }, Action::MapWindow { window: 7 }]
    );
}

#[test]
fn configure_request_changes_only_width() {
    let mut st = WmState::new();
    map_w(&mut st);
    let acts = st.handle_configure_request(ConfigureRequest {
        window: 7,
        x: None,
        y: None,
        width: Some(300),
        height: None,
        sibling: None,
        stack_mode: None,
    });
    let w = st.registry.lookup(7).unwrap();
    assert_eq!(w.geometry, Geometry { x: 10, y: 10, width: 300, height: 100 });
    assert_eq!(
        acts,
        vec![
            Action::ConfigureWindow {
                window: 8,
                x: Some(10),
                y: Some(10),
                width: Some(300 + 2 * BORDER_WIDTH),
                height: Some(100 + 2 * BORDER_WIDTH),
                sibling: None,
                stack_mode: None,
            },
            Action::ConfigureWindow {
                window: 7,
                x: Some(BORDER_WIDTH as i32),
                y: Some(BORDER_WIDTH as i32),
                width: Some(300),
                height: Some(100),
                sibling: None,
                stack_mode: None,
            },
        ]
    );
}

#[test]
fn configure_request_zero_width_clamped_to_one() {
    let mut st = WmState::new();
    map_w(&mut st);
    st.handle_configure_request(ConfigureRequest {
        window: 7,
        x: None,
        y: None,
        width: Some(0),
        height: Some(0),
        sibling: None,
        stack_mode: None,
    });
    let w = st.registry.lookup(7).unwrap();
    assert_eq!(w.geometry.width, 1);
    assert_eq!(w.geometry.height, 1);
}

#[test]
fn configure_request_for_unmanaged_window_forwarded_raw() {
    let mut st = WmState::new();
    let acts = st.handle_configure_request(ConfigureRequest {
        window: 42,
        x: Some(-5),
        y: None,
        width: Some(0),
        height: None,
        sibling: Some(9),
        stack_mode: Some(1),
    });
    assert_eq!(st.registry.len(), 0);
    assert_eq!(
        acts,
        vec![Action::ConfigureWindow {
            window: 42,
            x: Some(-5),
            y: None,
            width: Some(1),
            height: None,
            sibling: Some(9),
            stack_mode: Some(1),
        }]
    );
}

#[test]
fn drag_moves_frame_by_pointer_displacement() {
    let mut st = WmState::new();
    map_w(&mut st);
    // Button press on the frame (window 8) at root coordinates (50, 50).
    let acts = st.handle_button_press(8, 50, 50);
    assert_eq!(acts, vec![Action::GrabPointer { window: 8 }]);
    assert_eq!(
        st.drag,
        DragState::Dragging(DragSession {
            target: 7,
            pointer_x: 50,
            pointer_y: 50,
            anchor: Geometry { x: 10, y: 10, width: 200, height: 100 },
        })
    );
    // Motion to (70, 65): the frame moves to (10, 10) + (20, 15) = (30, 25).
    let acts = st.handle_motion(70, 65);
    assert_eq!(
        acts,
        vec![Action::ConfigureWindow {
            window: 8,
            x: Some(30),
            y: Some(25),
            width: None,
            height: None,
            sibling: None,
            stack_mode: None,
        }]
    );
    let w = st.registry.lookup(7).unwrap();
    assert_eq!((w.geometry.x, w.geometry.y), (30, 25));
    assert_eq!((w.geometry.width, w.geometry.height), (200, 100));
    // Release: the grab ends and the last computed position stands.
    let acts = st.handle_button_release();
    assert_eq!(acts, vec![Action::UngrabPointer]);
    assert_eq!(st.drag, DragState::Idle);
    let w = st.registry.lookup(7).unwrap();
    assert_eq!((w.geometry.x, w.geometry.y), (30, 25));
}

#[test]
fn button_press_while_dragging_is_ignored() {
    let mut st = WmState::new();
    map_w(&mut st);
    st.handle_map_request(20, 21, 0, 0, 50, 50, false);
    st.handle_button_press(8, 50, 50);
    let before = st.drag;
    let acts = st.handle_button_press(21, 60, 60);
    assert!(acts.is_empty());
    assert_eq!(st.drag, before);
}

#[test]
fn button_press_on_unknown_window_is_ignored() {
    let mut st = WmState::new();
    map_w(&mut st);
    // 7 is the client, not the frame: a press on it starts nothing.
    let acts = st.handle_button_press(7, 0, 0);
    assert!(acts.is_empty());
    assert_eq!(st.drag, DragState::Idle);
}

#[test]
fn motion_while_idle_is_ignored() {
    let mut st = WmState::new();
    map_w(&mut st);
    let acts = st.handle_motion(500, 500);
    assert!(acts.is_empty());
    let w = st.registry.lookup(7).unwrap();
    assert_eq!((w.geometry.x, w.geometry.y), (10, 10));
}

#[test]
fn destroy_notify_during_drag_clears_session() {
    let mut st = WmState::new();
    map_w(&mut st);
    st.handle_button_press(8, 50, 50);
    assert!(matches!(st.drag, DragState::Dragging(_)));
    let acts = st.handle_destroy_notify(7);
    assert_eq!(acts, vec![Action::DestroyWindow { window: 8 }]);
    assert!(st.registry.lookup(7).is_none());
    assert_eq!(st.registry.len(), 0);
    assert_eq!(st.drag, DragState::Idle);
    // The next motion for the stale drag is ignored.
    let acts = st.handle_motion(70, 65);
    assert!(acts.is_empty());
}

#[test]
fn destroy_notify_for_unknown_window_is_dropped() {
    let mut st = WmState::new();
    map_w(&mut st);
    let acts = st.handle_destroy_notify(1234);
    assert!(acts.is_empty());
    assert_eq!(st.registry.len(), 1);
}

#[test]
fn destroy_notify_keeps_unrelated_drag() {
    let mut st = WmState::new();
    map_w(&mut st);
    st.handle_map_request(20, 21, 0, 0, 50, 50, false);
    st.handle_button_press(8, 50, 50);
    let before = st.drag;
    st.handle_destroy_notify(20);
    assert_eq!(st.drag, before);
    assert!(st.registry.lookup(7).is_some());
}

#[test]
fn suppressed_unmap_only_marks_unmapped() {
    let mut st = WmState::new();
    map_w(&mut st);
    st.note_request(90);
    let acts = st.handle_unmap_notify(7, 90);
    assert!(acts.is_empty());
    let w = st.registry.lookup(7).unwrap();
    assert!(!w.mapped);
    assert_eq!(st.registry.len(), 1);
}

#[test]
fn unsuppressed_unmap_unregisters() {
    let mut st = WmState::new();
    map_w(&mut st);
    let acts = st.handle_unmap_notify(7, 90);
    assert_eq!(acts, vec![Action::DestroyWindow { window: 8 }]);
    assert!(st.registry.lookup(7).is_none());
}

#[test]
fn unmap_for_unknown_window_is_dropped() {
    let mut st = WmState::new();
    let acts = st.handle_unmap_notify(55, 3);
    assert!(acts.is_empty());
}

#[test]
fn sequence_suppressed_exactly_once() {
    let mut st = WmState::new();
    map_w(&mut st);
    st.handle_map_request(20, 21, 0, 0, 50, 50, false);
    st.note_request(90);
    // First notification with the pending number is suppressed...
    let acts = st.handle_unmap_notify(7, 90);
    assert!(acts.is_empty());
    assert_eq!(st.registry.len(), 2);
    // ...a second one with the same number is not suppressed again.
    let acts = st.handle_unmap_notify(20, 90);
    assert_eq!(acts, vec![Action::DestroyWindow { window: 21 }]);
    assert_eq!(st.registry.len(), 1);
}

#[test]
fn stale_pending_sequences_are_pruned() {
    let mut st = WmState::new();
    map_w(&mut st);
    st.handle_map_request(20, 21, 0, 0, 50, 50, false);
    st.note_request(5);
    // A newer notification prunes the stale pending entry without matching.
    let acts = st.handle_unmap_notify(7, 8);
    assert_eq!(acts, vec![Action::DestroyWindow { window: 8 }]);
    // The pruned number no longer suppresses anything.
    let acts = st.handle_unmap_notify(20, 5);
    assert_eq!(acts, vec![Action::DestroyWindow { window: 21 }]);
}

#[test]
fn close_window_sends_delete_when_supported() {
    let mut st = WmState::new();
    map_w(&mut st);
    assert_eq!(st.close_window(7), Ok(Action::SendDeleteMessage { window: 7 }));
    // Sending the message changes nothing in the registry.
    assert_eq!(st.registry.len(), 1);
}

#[test]
fn close_window_reports_ungraceful_when_unsupported() {
    let mut st = WmState::new();
    st.handle_map_request(20, 21, 0, 0, 50, 50, false);
    assert_eq!(st.close_window(20), Err(WmError::UngracefulCloseRequired));
}

#[test]
fn close_window_unknown() {
    let st = WmState::new();
    assert_eq!(st.close_window(7), Err(WmError::UnknownWindow));
}

#[test]
fn force_destroy_is_explicit_and_separate() {
    let mut st = WmState::new();
    st.handle_map_request(20, 21, 0, 0, 50, 50, false);
    assert_eq!(st.force_destroy(20), Ok(Action::DestroyWindow { window: 20 }));
    assert_eq!(st.force_destroy(99), Err(WmError::UnknownWindow));
    // The entry goes away only when the destroy notification arrives.
    assert_eq!(st.registry.len(), 1);
    st.handle_destroy_notify(20);
    assert_eq!(st.registry.len(), 0);
}

#[test]
fn duplicate_registration_is_rejected() {
    let mut st = WmState::new();
    let r = st.registry.register(7, 8, 0, 0, 10, 10, false);
    assert_eq!(r, Ok(()));
    assert_eq!(
        st.registry.register(7, 99, 0, 0, 10, 10, false),
        Err(WmError::DuplicateWindow)
    );
    assert_eq!(
        st.registry.register(99, 8, 0, 0, 10, 10, false),
        Err(WmError::DuplicateWindow)
    );
    assert_eq!(st.registry.len(), 1);
}

#[test]
fn unregister_unknown_is_noop() {
    let mut st = WmState::new();
    map_w(&mut st);
    assert_eq!(st.registry.unregister(99), Err(WmError::UnknownWindow));
    let w = st.registry.lookup(7).unwrap();
    assert_eq!(w.frame_id, 8);
    assert_eq!(st.registry.len(), 1);
    // Unregistering twice: the second call is the same no-op.
    assert_eq!(st.registry.unregister(7), Ok(8));
    assert_eq!(st.registry.unregister(7), Err(WmError::UnknownWindow));
    assert_eq!(st.registry.len(), 0);
}

#[test]
fn lookup_by_frame_finds_entry() {
    let mut st = WmState::new();
    map_w(&mut st);
    let w = st.registry.lookup_by_frame(8).unwrap();
    assert_eq!(w.client_id, 7);
    assert!(st.registry.lookup_by_frame(7).is_none());
}

#[test]
fn dispatch_routes_events() {
    let mut st = WmState::new();
    let acts = st.dispatch(WmEvent::MapRequest {
        window: 7,
        frame_id: 8,
        x: 10,
        y: 10,
        width: 200,
        height: 100,
        supports_delete: true,
    });
    assert_eq!(acts.len(), 4);
    let acts = st.dispatch(WmEvent::ButtonPress { window: 8, root_x: 50, root_y: 50 });
    assert_eq!(acts, vec![Action::GrabPointer { window: 8 }]);
    let acts = st.dispatch(WmEvent::MotionNotify { root_x: 70, root_y: 65 });
    assert_eq!(acts.len(), 1);
    let acts = st.dispatch(WmEvent::ButtonRelease);
    assert_eq!(acts, vec![Action::UngrabPointer]);
    let acts = st.dispatch(WmEvent::ClientMessage { window: 7 });
    assert!(acts.is_empty());
    let acts = st.dispatch(WmEvent::Unknown);
    assert!(acts.is_empty());
    let acts = st.dispatch(WmEvent::DestroyNotify { window: 7 });
    assert_eq!(acts, vec![Action::DestroyWindow { window: 8 }]);
}

#[test]
fn map_request_with_colliding_frame_is_dropped() {
    let mut st = WmState::new();
    map_w(&mut st);
    // Frame 8 is already live: a map request handed the same fresh
    // identifier is dropped rather than corrupting the registry.
    let acts = st.handle_map_request(30, 8, 0, 0, 10, 10, false);
    assert!(acts.is_empty());
    assert_eq!(st.registry.len(), 1);
    assert!(st.registry.lookup(30).is_none());
}

#[test]
fn configure_request_changing_only_x_keeps_rest() {
    let mut st = WmState::new();
    map_w(&mut st);
    st.handle_configure_request(ConfigureRequest {
        window: 7,
        x: Some(-7),
        y: None,
        width: None,
        height: None,
        sibling: None,
        stack_mode: None,
    });
    let w = st.registry.lookup(7).unwrap();
    assert_eq!(w.geometry, Geometry { x: -7, y: 10, width: 200, height: 100 });
}

#[test]
fn dispatch_routes_configure_and_unmap() {
    let mut st = WmState::new();
    st.dispatch(WmEvent::MapRequest {
        window: 7,
        frame_id: 8,
        x: 10,
        y: 10,
        width: 200,
        height: 100,
        supports_delete: true,
    });
    let acts = st.dispatch(WmEvent::ConfigureRequest(ConfigureRequest {
        window: 7,
        x: None,
        y: None,
        width: Some(300),
        height: None,
        sibling: None,
        stack_mode: None,
    }));
    assert_eq!(acts.len(), 2);
    assert_eq!(st.registry.lookup(7).unwrap().geometry.width, 300);
    let acts = st.dispatch(WmEvent::UnmapNotify { window: 7, sequence: 12 });
    assert_eq!(acts, vec![Action::DestroyWindow { window: 8 }]);
    assert!(st.registry.lookup(7).is_none());
}

#[test]
fn attach_denied_is_already_managed() {
    assert_eq!(classify_attach(AttachOutcome::Granted), Ok(()));
    assert_eq!(
        classify_attach(AttachOutcome::AccessDenied),
        Err(WmError::AlreadyManaged)
    );
    assert_eq!(classify_attach(AttachOutcome::Failed), Err(WmError::ConnectionLost));
    // The two fatal outcomes carry distinct diagnostics.
    let already = WmError::AlreadyManaged.diagnostic();
    let lost = WmError::ConnectionLost.diagnostic();
    assert_ne!(already, lost);
    assert!(!already.is_empty());
    assert!(!lost.is_empty());
}

#[test]
fn negative_coordinates_are_kept() {
    let mut st = WmState::new();
    st.handle_map_request(7, 8, -30, -40, 200, 100, true);
    let w = st.registry.lookup(7).unwrap();
    assert_eq!((w.geometry.x, w.geometry.y), (-30, -40));
}

#[test]
fn drag_position_is_exact_for_negative_displacement() {
    let mut st = WmState::new();
    map_w(&mut st);
    st.handle_button_press(8, 50, 50);
    let acts = st.handle_motion(0, 10);
    assert_eq!(
        acts,
        vec![Action::ConfigureWindow {
            window: 8,
            x: Some(-40),
            y: Some(-30),
            width: None,
            height: None,
            sibling: None,
            stack_mode: None,
        }]
    );
}

#[test]
fn zero_dimensions_clamped_at_registration() {
    let mut st = WmState::new();
    st.handle_map_request(7, 8, 0, 0, 0, 0, false);
    let w = st.registry.lookup(7).unwrap();
    assert_eq!((w.geometry.width, w.geometry.height), (1, 1));
}
