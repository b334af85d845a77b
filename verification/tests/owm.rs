use owm::protocol::{
    Action, ButtonEvent, ConfigureRequest, Event, EventKind, Point, Request, ScannedWindow,
    WindowAttributes, WindowChanges, FRAME_BACKGROUND, FRAME_BORDER_WIDTH, FRAME_EVENT_MASK,
    LOCK_MASK, MOD1_MASK, MOD2_MASK, ROOT_EVENT_MASK,
};
use owm::sequence_queue::SequenceQueue;
use owm::window::{Geometry, WindowState, TITLEBAR_HEIGHT};
use owm::wm::WmState;

const ROOT: u32 = 100;
const GC: u32 = 7;
const PROTOCOLS: u32 = 50;
const DELETE: u32 = 51;

fn new_wm() -> WmState {
    WmState::new(0, ROOT, GC, PROTOCOLS, DELETE, 10, 3)
}

fn geom(x: i16, y: i16, width: u16, height: u16) -> Geometry {
    Geometry { x, y, width, height }
}

/// Adopts `win` into `frame` as the program does: the frame requests go
/// out as numbers `first`, `first + 1`, ..., then the window is recorded.
fn adopt(wm: &mut WmState, win: u32, frame: u32, g: Geometry, first: u64) -> Vec<Request> {
    let reqs = wm.manage_window(win, frame, &g);
    wm.window_framed(win, frame, &g);
    for (i, req) in reqs.iter().enumerate() {
        wm.request_sent(req, first + i as u64);
    }
    reqs
}

fn event(kind: EventKind) -> Event {
    Event { sequence: None, kind }
}

fn press(window: u32, x: i16, y: i16) -> ButtonEvent {
    ButtonEvent { detail: 1, state: 0, event: window, event_x: x, event_y: y }
}

fn no_changes() -> WindowChanges {
    WindowChanges { x: None, y: None, width: None, height: None, border_width: None, raise: false }
}

#[test]
fn close_area_is_width_minus_titlebar() {
    let s = WindowState::new(1, 2, &geom(0, 0, 100, 50));
    assert_eq!(s.close_area(), 80);
    let s = WindowState::new(1, 2, &geom(0, 0, TITLEBAR_HEIGHT, 50));
    assert_eq!(s.close_area(), 0);
}

#[test]
fn close_area_wraps_like_the_cast() {
    let s = WindowState::new(1, 2, &geom(0, 0, 40000, 50));
    assert_eq!(s.close_area(), -25556);
}

#[test]
fn window_state_copies_geometry() {
    let s = WindowState::new(5, 6, &geom(-3, 4, 300, 200));
    assert_eq!(s, WindowState { window: 5, frame_window: 6, x: -3, y: 4, width: 300 });
}

#[test]
fn queue_is_a_min_queue() {
    let mut q = SequenceQueue::new();
    q.push(10);
    q.push(3);
    q.push(7);
    q.push(3);
    assert_eq!(q.len(), 4);
    assert_eq!(q.peek(), Some(3));
    assert_eq!(q.pop(), Some(3));
    assert_eq!(q.pop(), Some(3));
    assert_eq!(q.pop(), Some(7));
    assert_eq!(q.pop(), Some(10));
    assert_eq!(q.pop(), None);
    assert_eq!(q.peek(), None);
}

#[test]
fn queue_check_drops_passed_and_keeps_match() {
    let mut q = SequenceQueue::new();
    q.push(5);
    q.push(10);
    q.push(20);
    assert!(q.would_ignore(10));
    assert!(q.check(10));
    assert_eq!(q.len(), 2);
    assert_eq!(q.peek(), Some(10));
    // The matching number stays: a second event with it is ignored too.
    assert!(q.check(10));
    // A later number passes 10 but stops at 20, which lies ahead.
    assert!(!q.check(15));
    assert_eq!(q.peek(), Some(20));
    assert_eq!(q.len(), 1);
}

#[test]
fn queue_check_on_empty_queue() {
    let mut q = SequenceQueue::new();
    assert!(!q.check(0));
    assert_eq!(q.len(), 0);
}

#[test]
fn queue_numbers_ahead_are_not_dropped() {
    let mut q = SequenceQueue::new();
    q.push(100);
    assert!(!q.check(90));
    assert_eq!(q.peek(), Some(100));
}

#[test]
fn queue_wrapped_smaller_number_hides_a_match() {
    // 0 lies ahead of 40000 on the wrapping clock, so it stays first and
    // the event numbered 40000 is not ignored.
    let mut q = SequenceQueue::new();
    q.push(0);
    q.push(40000);
    assert!(!q.check(40000));
    assert_eq!(q.len(), 2);
}

#[test]
fn queue_passes_across_the_wrap() {
    // 65530 lies before 3 on the wrapping clock: an event numbered 3 drops it.
    let mut q = SequenceQueue::new();
    q.push(65530);
    assert!(!q.check(3));
    assert_eq!(q.len(), 0);
    // With 3 queued too, 3 comes first and matches; both stay.
    q.push(65530);
    q.push(3);
    assert!(q.check(3));
    assert_eq!(q.len(), 2);
    assert!(!q.check(4));
    assert_eq!(q.len(), 0);
}

#[test]
fn new_state_is_empty() {
    let wm = new_wm();
    assert_eq!(wm.root, ROOT);
    assert!(wm.windows.is_empty());
    assert!(wm.pending_expose.is_empty());
    assert_eq!(wm.sequences_to_ignore.len(), 0);
    assert_eq!(wm.drag_window, None);
    assert_eq!(wm.bar_height(), 21);
}

#[test]
fn manage_window_frames_the_client() {
    let mut wm = new_wm();
    let reqs = wm.manage_window(5, 6, &geom(1, 2, 300, 200));
    // Nothing is recorded until the requests went out.
    assert!(wm.windows.is_empty());
    assert_eq!(wm.sequences_to_ignore.len(), 0);
    wm.window_framed(5, 6, &geom(1, 2, 300, 200));
    for (i, req) in reqs.iter().enumerate() {
        wm.request_sent(req, 70000 + i as u64);
    }
    // Only the reparenting (the fourth request) is to be ignored, by its
    // low 16 bits.
    assert_eq!(wm.sequences_to_ignore.len(), 1);
    assert_eq!(wm.sequences_to_ignore.peek(), Some(4467));
    assert_eq!(
        reqs,
        vec![
            Request::CreateWindow {
                frame: 6,
                parent: ROOT,
                x: 1,
                y: 2,
                width: 300,
                height: 220,
                border_width: FRAME_BORDER_WIDTH,
                event_mask: FRAME_EVENT_MASK,
                background_pixel: FRAME_BACKGROUND,
            },
            Request::GrabServer,
            Request::ChangeSaveSet { insert: true, window: 5 },
            Request::ReparentWindow { window: 5, parent: 6, x: 0, y: 20, ignore_events: true },
            Request::MapWindow { window: 5 },
            Request::MapWindow { window: 6 },
            Request::UngrabServer,
        ]
    );
    assert_eq!(wm.windows, vec![WindowState { window: 5, frame_window: 6, x: 1, y: 2, width: 300 }]);
    assert_eq!(wm.find_window_by_id(5), Some(&wm.windows[0]));
    assert_eq!(wm.find_window_by_id(6), Some(&wm.windows[0]));
    assert_eq!(wm.find_window_by_id(7), None);
}

#[test]
fn event_masks_match_the_protocol() {
    assert_eq!(FRAME_EVENT_MASK, 557151);
    assert_eq!(ROOT_EVENT_MASK, 1572864);
}

#[test]
fn find_window_by_id_mut_changes_the_record() {
    let mut wm = new_wm();
    adopt(&mut wm, 5, 6, geom(1, 2, 300, 200), 1000);
    if let Some(s) = wm.find_window_by_id_mut(6) {
        s.x = 42;
    }
    assert_eq!(wm.windows[0].x, 42);
    assert!(wm.find_window_by_id_mut(9).is_none());
}

#[test]
fn own_reparent_events_are_ignored() {
    let mut wm = new_wm();
    // The reparenting goes out as number 65536 + 7.
    adopt(&mut wm, 5, 6, geom(1, 2, 300, 200), 65536 + 4);
    assert_eq!(wm.sequences_to_ignore.peek(), Some(7));
    let unmap = Event { sequence: Some(7), kind: EventKind::UnmapNotify { window: 5 } };
    assert!(wm.accepts_event(&unmap));
    assert_eq!(wm.handle_event(&unmap), Action::Ignored);
    assert_eq!(wm.windows.len(), 1);
    // A later event passes the recorded number and is handled.
    let later = Event { sequence: Some(8), kind: EventKind::UnmapNotify { window: 5 } };
    let action = wm.handle_event(&later);
    assert_eq!(wm.sequences_to_ignore.len(), 0);
    assert!(wm.windows.is_empty());
    assert_eq!(
        action,
        Action::Requests(vec![
            Request::ChangeSaveSet { insert: false, window: 5 },
            Request::ReparentWindow { window: 5, parent: ROOT, x: 1, y: 2, ignore_events: false },
            Request::DestroyWindow { window: 6 },
        ])
    );
}

#[test]
fn ignore_sequence_keeps_low_bits() {
    let mut wm = new_wm();
    wm.ignore_sequence(3 * 65536 + 9);
    wm.ignore_sequence(2);
    assert_eq!(wm.sequences_to_ignore.pop(), Some(2));
    assert_eq!(wm.sequences_to_ignore.pop(), Some(9));
}

#[test]
fn only_marked_requests_are_recorded() {
    let mut wm = new_wm();
    wm.request_sent(&Request::MapWindow { window: 5 }, 11);
    let back = Request::ReparentWindow { window: 5, parent: ROOT, x: 0, y: 0, ignore_events: false };
    wm.request_sent(&back, 12);
    assert_eq!(wm.sequences_to_ignore.len(), 0);
    let marked = Request::ReparentWindow { window: 5, parent: 6, x: 0, y: 20, ignore_events: true };
    wm.request_sent(&marked, 13);
    assert_eq!(wm.sequences_to_ignore.peek(), Some(13));
}

#[test]
fn no_drag_after_release_with_presses_between() {
    let mut wm = new_wm();
    adopt(&mut wm, 5, 6, geom(1, 2, 300, 200), 1000);
    wm.handle_button_press(&press(6, 30, 8));
    let release = ButtonEvent { detail: 1, state: 256, event: 6, event_x: 30, event_y: 8 };
    wm.handle_button_release(&release);
    // Presses that start no drag: with a modifier, on no managed window,
    // in the close area.
    let mut with_mod = press(6, 30, 8);
    with_mod.state = 4;
    wm.handle_button_press(&with_mod);
    wm.handle_button_press(&press(77, 30, 8));
    wm.handle_button_press(&press(6, 290, 8));
    wm.handle_expose(6);
    assert_eq!(wm.drag_window, None);
    assert_eq!(wm.handle_motion_notify(500, 500), vec![]);
}

#[test]
fn titlebar_cross_moves_with_width() {
    let wm = new_wm();
    let narrow = wm.redraw_titlebar(&WindowState { window: 5, frame_window: 6, x: 0, y: 0, width: 300 });
    let wide = wm.redraw_titlebar(&WindowState { window: 5, frame_window: 6, x: 0, y: 0, width: 340 });
    for (a, b) in narrow.first_stroke.iter().zip(wide.first_stroke.iter()) {
        assert_eq!((a.x + 40, a.y), (b.x, b.y));
    }
    for (a, b) in narrow.second_stroke.iter().zip(wide.second_stroke.iter()) {
        assert_eq!((a.x + 40, a.y), (b.x, b.y));
    }
    assert_eq!((narrow.text_x, narrow.text_y), (wide.text_x, wide.text_y));
}

#[test]
fn unmap_undoes_manage() {
    let mut wm = new_wm();
    adopt(&mut wm, 8, 9, geom(0, 0, 50, 50), 1000);
    let before = wm.windows.clone();
    adopt(&mut wm, 5, 6, geom(10, 20, 300, 200), 1000);
    let reqs = wm.handle_unmap_notify(5);
    assert_eq!(wm.windows, before);
    assert_eq!(reqs.len(), 3);
    // Unmapping a frame id drops nothing: only client windows are matched.
    assert!(wm.handle_unmap_notify(9).is_empty());
    assert_eq!(wm.windows, before);
}

#[test]
fn map_request_asks_for_management() {
    let mut wm = new_wm();
    let action = wm.handle_event(&event(EventKind::MapRequest { window: 33 }));
    assert_eq!(action, Action::Manage(33));
}

#[test]
fn configure_request_of_unmanaged_window_is_granted() {
    let mut wm = new_wm();
    let req = ConfigureRequest {
        window: 40,
        x: 1,
        y: 2,
        width: 3,
        height: 4,
        border_width: 5,
        value_mask: 1 | 4 | 16 | 32 | 64,
    };
    let action = wm.handle_event(&event(EventKind::ConfigureRequest(req)));
    let expected = WindowChanges {
        x: Some(1),
        y: None,
        width: Some(3),
        height: None,
        border_width: Some(5),
        raise: false,
    };
    assert_eq!(WindowChanges::from_configure_request(&req), expected);
    assert_eq!(action, Action::Requests(vec![Request::ConfigureWindow { window: 40, changes: expected }]));
}

#[test]
fn configure_request_of_managed_window_is_not_accepted() {
    let mut wm = new_wm();
    adopt(&mut wm, 5, 6, geom(1, 2, 300, 200), 1000);
    let req = ConfigureRequest { window: 5, x: 0, y: 0, width: 0, height: 0, border_width: 0, value_mask: 0 };
    assert!(!wm.accepts_event(&event(EventKind::ConfigureRequest(req))));
}

#[test]
fn drag_moves_the_frame_with_the_pointer() {
    let mut wm = new_wm();
    adopt(&mut wm, 5, 6, geom(1, 2, 300, 200), 1000);
    let action = wm.handle_event(&event(EventKind::ButtonPress(press(6, 30, 8))));
    let mut raise = no_changes();
    raise.raise = true;
    assert_eq!(
        action,
        Action::Requests(vec![
            Request::SetInputFocus { window: 5 },
            Request::ConfigureWindow { window: 6, changes: raise },
        ])
    );
    assert_eq!(wm.drag_window, Some((6, (-30, -8))));
    let action = wm.handle_event(&event(EventKind::MotionNotify { root_x: 130, root_y: 58 }));
    let mut moved = no_changes();
    moved.x = Some(100);
    moved.y = Some(50);
    assert_eq!(action, Action::Requests(vec![Request::ConfigureWindow { window: 6, changes: moved }]));
    let release = ButtonEvent { detail: 1, state: 256, event: 6, event_x: 30, event_y: 8 };
    assert_eq!(wm.handle_event(&event(EventKind::ButtonRelease(release))), Action::Requests(vec![]));
    assert_eq!(wm.drag_window, None);
    assert_eq!(
        wm.handle_event(&event(EventKind::MotionNotify { root_x: 1, root_y: 1 })),
        Action::Requests(vec![])
    );
}

#[test]
fn press_with_modifiers_or_other_button_does_nothing() {
    let mut wm = new_wm();
    adopt(&mut wm, 5, 6, geom(1, 2, 300, 200), 1000);
    let mut b = press(6, 30, 8);
    b.state = 8;
    assert_eq!(wm.handle_button_press(&b), vec![]);
    let mut b = press(6, 30, 8);
    b.detail = 3;
    assert_eq!(wm.handle_button_press(&b), vec![]);
    assert_eq!(wm.drag_window, None);
}

#[test]
fn press_in_close_area_focuses_without_drag() {
    let mut wm = new_wm();
    adopt(&mut wm, 5, 6, geom(1, 2, 300, 200), 1000);
    let reqs = wm.handle_button_press(&press(6, 290, 8));
    assert_eq!(reqs.len(), 2);
    assert_eq!(wm.drag_window, None);
}

#[test]
fn release_in_close_area_asks_to_close() {
    let mut wm = new_wm();
    adopt(&mut wm, 5, 6, geom(1, 2, 300, 200), 1000);
    let b = ButtonEvent { detail: 1, state: 256, event: 6, event_x: 280, event_y: 8 };
    assert_eq!(
        wm.handle_button_release(&b),
        vec![Request::SendDeleteWindow { window: 5, protocols: PROTOCOLS, delete: DELETE }]
    );
    let b = ButtonEvent { detail: 1, state: 256, event: 6, event_x: 279, event_y: 8 };
    assert_eq!(wm.handle_button_release(&b), vec![]);
}

#[test]
fn narrow_window_press_is_not_accepted() {
    let mut wm = new_wm();
    adopt(&mut wm, 5, 6, geom(1, 2, 10, 200), 1000);
    assert!(!wm.accepts_event(&event(EventKind::ButtonPress(press(6, 3, 3)))));
    assert!(wm.accepts_event(&event(EventKind::ButtonPress(press(7, 3, 3)))));
}

#[test]
fn motion_overflow_is_not_accepted() {
    let mut wm = new_wm();
    adopt(&mut wm, 5, 6, geom(1, 2, 300, 200), 1000);
    wm.handle_button_press(&press(6, -20000, 8));
    assert_eq!(wm.drag_window, Some((6, (20000, -8))));
    assert!(!wm.accepts_event(&event(EventKind::MotionNotify { root_x: 20000, root_y: 0 })));
    assert!(wm.accepts_event(&event(EventKind::MotionNotify { root_x: 12767, root_y: 0 })));
}

#[test]
fn close_key_asks_to_close() {
    let mut wm = new_wm();
    adopt(&mut wm, 5, 6, geom(1, 2, 300, 200), 1000);
    assert_eq!(
        wm.handle_key_release(24, 6),
        vec![Request::SendDeleteWindow { window: 5, protocols: PROTOCOLS, delete: DELETE }]
    );
    assert_eq!(wm.handle_key_release(25, 6), vec![]);
    assert_eq!(wm.handle_key_release(24, 77), vec![]);
}

#[test]
fn expose_then_refresh_redraws_once() {
    let mut wm = new_wm();
    adopt(&mut wm, 5, 6, geom(1, 2, 300, 200), 1000);
    wm.handle_event(&event(EventKind::Expose { window: 6 }));
    wm.handle_expose(6);
    wm.handle_expose(99);
    assert_eq!(wm.pending_expose.len(), 2);
    let redraw = wm.refresh();
    assert_eq!(redraw, vec![WindowState { window: 5, frame_window: 6, x: 1, y: 2, width: 300 }]);
    assert!(wm.pending_expose.is_empty());
    assert!(wm.refresh().is_empty());
}

#[test]
fn refresh_redraws_window_exposed_by_both_ids_twice() {
    let mut wm = new_wm();
    adopt(&mut wm, 5, 6, geom(1, 2, 300, 200), 1000);
    wm.handle_expose(5);
    wm.handle_expose(6);
    assert_eq!(wm.refresh().len(), 2);
}

#[test]
fn titlebar_drawing_points() {
    let wm = new_wm();
    let s = WindowState { window: 5, frame_window: 6, x: 0, y: 0, width: 300 };
    let d = wm.redraw_titlebar(&s);
    assert_eq!(d.window, 5);
    assert_eq!(d.frame, 6);
    assert_eq!(d.gc, GC);
    assert_eq!((d.text_x, d.text_y), (3, 13));
    let p = |x, y| Point { x, y };
    assert_eq!(d.first_stroke, vec![p(286, 5), p(293, 12), p(286, 6), p(292, 12), p(285, 6), p(292, 13)]);
    assert_eq!(d.second_stroke, vec![p(285, 12), p(292, 5), p(286, 12), p(292, 6), p(286, 13), p(293, 6)]);
}

#[test]
fn titlebar_with_negative_font_metrics() {
    // Bar height -7 halves to -3 (toward zero).
    let wm = WmState::new(0, ROOT, GC, PROTOCOLS, DELETE, -10, -5);
    assert_eq!(wm.bar_height(), -7);
    let s = WindowState { window: 5, frame_window: 6, x: 0, y: 0, width: 100 };
    let d = wm.redraw_titlebar(&s);
    assert_eq!(d.first_stroke[0], Point { x: 86, y: -8 });
    assert_eq!(d.text_y, -7);
}

#[test]
fn scan_adopts_mapped_managed_windows() {
    let wm = new_wm();
    let attrs = |o, m| Some(WindowAttributes { override_redirect: o, map_state: m });
    let g = geom(1, 2, 3, 4);
    let scanned = vec![
        ScannedWindow { window: 1, attributes: attrs(false, 2), geometry: Some(g) },
        ScannedWindow { window: 2, attributes: attrs(true, 2), geometry: Some(g) },
        ScannedWindow { window: 3, attributes: attrs(false, 0), geometry: Some(g) },
        ScannedWindow { window: 4, attributes: None, geometry: Some(g) },
        ScannedWindow { window: 5, attributes: attrs(false, 1), geometry: None },
        ScannedWindow { window: 6, attributes: attrs(false, 1), geometry: Some(g) },
    ];
    assert_eq!(wm.scan_windows(&scanned), vec![(1, g), (6, g)]);
}

#[test]
fn close_key_grabs_on_root() {
    let wm = new_wm();
    assert_eq!(
        wm.close_key_grabs(),
        vec![
            Request::GrabKey { window: ROOT, modifiers: MOD1_MASK, keycode: 24 },
            Request::GrabKey { window: ROOT, modifiers: LOCK_MASK | MOD1_MASK, keycode: 24 },
            Request::GrabKey { window: ROOT, modifiers: MOD2_MASK | LOCK_MASK | MOD1_MASK, keycode: 24 },
        ]
    );
    assert_eq!(wm.grab_keycode(3, 8, 24), Request::GrabKey { window: 3, modifiers: 8, keycode: 24 });
}

#[test]
fn other_events_do_nothing() {
    let mut wm = new_wm();
    assert_eq!(wm.handle_event(&event(EventKind::Other)), Action::Requests(vec![]));
}

#[test]
fn adopted_ids_stay_distinct() {
    let mut wm = new_wm();
    adopt(&mut wm, 5, 6, geom(1, 2, 300, 200), 1000);
    adopt(&mut wm, 8, 9, geom(0, 0, 50, 50), 2000);
    let mut ids: Vec<u32> = Vec::new();
    for s in &wm.windows {
        ids.push(s.window);
        ids.push(s.frame_window);
    }
    let n = ids.len();
    ids.sort();
    ids.dedup();
    assert_eq!(ids.len(), n);
    assert_eq!(wm.find_window_by_id(9).map(|s| s.window), Some(8));
}
