use vstd::prelude::*;

use crate::protocol::{
    requested_changes, ActionModel, ButtonEvent, ConfigureRequest, Event, EventKind, Request,
    WindowChanges, CLOSE_KEYCODE, DRAG_BUTTON, FRAME_BACKGROUND, FRAME_BORDER_WIDTH,
    FRAME_EVENT_MASK, LOCK_MASK, MAP_STATE_UNMAPPED, MOD1_MASK, MOD2_MASK, ScannedWindow,
};
use crate::sequence_queue::{drop_passed, insert_sorted, is_ignored};
use crate::window::{close_area_of, find_window, matches_id, Geometry, WindowState, TITLEBAR_HEIGHT};

verus! {

/// The mathematical state of the window manager.
#[verifier::ext_equal]
pub struct WmModel {
    pub screen_num: usize,
    pub root: u32,
    pub black_gc: u32,
    /// Managed windows, in the order they were adopted.
    pub windows: Seq<WindowState>,
    /// Windows whose titlebar is to be redrawn.
    pub pending_expose: Set<u32>,
    pub wm_protocols: u32,
    pub wm_delete_window: u32,
    /// Sequence numbers whose events are to be ignored, ascending.
    pub sequences_to_ignore: Seq<u16>,
    /// The frame being dragged and the offset from the pointer to its origin.
    pub drag_window: Option<(u32, (i16, i16))>,
    pub font_ascent: i16,
    pub font_descent: i16,
}

/// The records of `ws` whose client window is not `w`, in order.
pub open spec fn retained(ws: Seq<WindowState>, w: u32) -> Seq<WindowState>
    decreases ws.len(),
{
    if ws.len() == 0 {
        Seq::empty()
    } else {
        let rest = retained(ws.drop_last(), w);
        if ws.last().window != w {
            rest.push(ws.last())
        } else {
            rest
        }
    }
}

/// Requests that give a client window back to the root and drop its frame.
pub open spec fn release_requests(s: WindowState, root: u32) -> Seq<Request> {
    seq![
        Request::ChangeSaveSet { insert: false, window: s.window },
        Request::ReparentWindow { window: s.window, parent: root, x: s.x, y: s.y, ignore_events: false },
        Request::DestroyWindow { window: s.frame_window },
    ]
}

/// Release requests for each record of `ws` whose client window is `w`, in order.
pub open spec fn unmap_requests(ws: Seq<WindowState>, w: u32, root: u32) -> Seq<Request>
    decreases ws.len(),
{
    if ws.len() == 0 {
        Seq::empty()
    } else {
        let rest = unmap_requests(ws.drop_last(), w, root);
        if ws.last().window == w {
            rest + release_requests(ws.last(), root)
        } else {
            rest
        }
    }
}

/// Requests that put client window `win` into a new frame `frame`: the frame
/// is created where the client was, `TITLEBAR_HEIGHT` taller, and the client
/// is reparented below the titlebar with the server grabbed.
pub open spec fn frame_requests(root: u32, win: u32, frame: u32, geom: Geometry) -> Seq<Request> {
    seq![
        Request::CreateWindow {
            frame,
            parent: root,
            x: geom.x,
            y: geom.y,
            width: geom.width,
            height: (geom.height + TITLEBAR_HEIGHT) as u16,
            border_width: FRAME_BORDER_WIDTH,
            event_mask: FRAME_EVENT_MASK,
            background_pixel: FRAME_BACKGROUND,
        },
        Request::GrabServer,
        Request::ChangeSaveSet { insert: true, window: win },
        Request::ReparentWindow {
            window: win,
            parent: frame,
            x: 0,
            y: TITLEBAR_HEIGHT as i16,
            ignore_events: true,
        },
        Request::MapWindow { window: win },
        Request::MapWindow { window: frame },
        Request::UngrabServer,
    ]
}

/// Asks the client of `s` to close its window.
pub open spec fn delete_request(m: WmModel, s: WindowState) -> Request {
    Request::SendDeleteWindow {
        window: s.window,
        protocols: m.wm_protocols,
        delete: m.wm_delete_window,
    }
}

/// Puts a window above its siblings and changes nothing else.
pub open spec fn raise_changes() -> WindowChanges {
    WindowChanges { x: None, y: None, width: None, height: None, border_width: None, raise: true }
}

/// Moves a window to (`x`, `y`) and changes nothing else.
pub open spec fn move_changes(x: int, y: int) -> WindowChanges {
    WindowChanges {
        x: Some(x as i32),
        y: Some(y as i32),
        width: None,
        height: None,
        border_width: None,
        raise: false,
    }
}

pub open spec fn no_requests() -> Seq<Request> {
    Seq::empty()
}

/// `win` can be adopted: it is not managed yet (neither a client window
/// nor a frame of a record), and its height plus the titlebar fits in a `u16`.
pub open spec fn manage_pre(m: WmModel, win: u32, geom: Geometry) -> bool {
    &&& find_window(m.windows, win) is None
    &&& geom.height + TITLEBAR_HEIGHT <= u16::MAX
}

pub open spec fn on_manage(m: WmModel, win: u32, frame: u32, geom: Geometry) -> (WmModel, Seq<Request>) {
    let s = WindowState { window: win, frame_window: frame, x: geom.x, y: geom.y, width: geom.width };
    (WmModel { windows: m.windows.push(s), ..m }, frame_requests(m.root, win, frame, geom))
}

/// After request `req` went out as number `sequence`: the low 16 bits of
/// the number are queued when `req` is a reparenting whose events are to be
/// ignored; otherwise nothing changes.
pub open spec fn on_request_sent(m: WmModel, req: Request, sequence: u64) -> WmModel {
    match req {
        Request::ReparentWindow { ignore_events: true, .. } => WmModel {
            sequences_to_ignore: insert_sorted(m.sequences_to_ignore, (sequence % 65536) as u16),
            ..m
        },
        _ => m,
    }
}

/// Every client window and every frame of `ws` belongs to exactly one
/// record: no id occurs twice among them.
pub open spec fn ids_distinct(ws: Seq<WindowState>) -> bool {
    &&& forall|i: int| 0 <= i < ws.len() ==> (#[trigger] ws[i]).window != ws[i].frame_window
    &&& forall|i: int, j: int|
        0 <= i < ws.len() && 0 <= j < ws.len() && i != j ==> {
            &&& (#[trigger] ws[i]).window != (#[trigger] ws[j]).window
            &&& ws[i].frame_window != ws[j].frame_window
            &&& ws[i].window != ws[j].frame_window
        }
}

/// No record of `ws` has `id` as its client window or its frame.
pub open spec fn id_unused(ws: Seq<WindowState>, id: u32) -> bool {
    forall|i: int| 0 <= i < ws.len() ==> !matches_id(#[trigger] ws[i], id)
}

/// A client window was unmapped: its records are dropped and it is given back.
pub open spec fn on_unmap_notify(m: WmModel, w: u32) -> (WmModel, Seq<Request>) {
    (WmModel { windows: retained(m.windows, w), ..m }, unmap_requests(m.windows, w, m.root))
}

/// Configure requests of managed windows are not handled.
pub open spec fn configure_request_pre(m: WmModel, req: ConfigureRequest) -> bool {
    find_window(m.windows, req.window) is None
}

/// Configure requests of other windows are granted as asked.
pub open spec fn on_configure_request(req: ConfigureRequest) -> Seq<Request> {
    seq![Request::ConfigureWindow { window: req.window, changes: requested_changes(req) }]
}

/// An exposed window is queued for a titlebar redraw.
pub open spec fn on_expose(m: WmModel, w: u32) -> WmModel {
    WmModel { pending_expose: m.pending_expose.insert(w), ..m }
}

/// A press of the drag button starts a drag left of the close area, which
/// needs a titlebar at least `TITLEBAR_HEIGHT` wide and negatable
/// coordinates.
pub open spec fn button_press_pre(m: WmModel, b: ButtonEvent) -> bool {
    (b.detail == DRAG_BUTTON && b.state == 0 && m.drag_window is None) ==> match find_window(
        m.windows,
        b.event,
    ) {
        Some(s) => s.width >= TITLEBAR_HEIGHT && (b.event_x < close_area_of(s.width) ==> (
        b.event_x != i16::MIN && b.event_y != i16::MIN)),
        None => true,
    }
}

/// A plain press of the drag button on a managed window focuses and raises
/// it, and starts a drag of its frame when none runs and the press is left
/// of the close area.
pub open spec fn on_button_press(m: WmModel, b: ButtonEvent) -> (WmModel, Seq<Request>) {
    if b.detail != DRAG_BUTTON || b.state != 0 {
        (m, no_requests())
    } else {
        match find_window(m.windows, b.event) {
            None => (m, no_requests()),
            Some(s) => {
                let reqs = seq![
                    Request::SetInputFocus { window: s.window },
                    Request::ConfigureWindow { window: s.frame_window, changes: raise_changes() },
                ];
                if m.drag_window is None && b.event_x < close_area_of(s.width) {
                    (
                        WmModel {
                            drag_window: Some(
                                (s.frame_window, ((-b.event_x) as i16, (-b.event_y) as i16)),
                            ),
                            ..m
                        },
                        reqs,
                    )
                } else {
                    (m, reqs)
                }
            },
        }
    }
}

pub open spec fn button_release_pre(m: WmModel, b: ButtonEvent) -> bool {
    find_window(m.windows, b.event) matches Some(s) ==> s.width >= TITLEBAR_HEIGHT
}

/// Releasing the drag button ends a drag; a release in the close area of a
/// managed window asks its client to close it.
pub open spec fn on_button_release(m: WmModel, b: ButtonEvent) -> (WmModel, Seq<Request>) {
    let m1 = if b.detail == DRAG_BUTTON {
        WmModel { drag_window: None, ..m }
    } else {
        m
    };
    let reqs = match find_window(m.windows, b.event) {
        Some(s) => if b.event_x >= close_area_of(s.width) {
            seq![delete_request(m, s)]
        } else {
            no_requests()
        },
        None => no_requests(),
    };
    (m1, reqs)
}

pub open spec fn motion_pre(m: WmModel, root_x: i16, root_y: i16) -> bool {
    m.drag_window matches Some((w, (x, y))) ==> (i16::MIN <= x + root_x <= i16::MAX && i16::MIN
        <= y + root_y <= i16::MAX)
}

/// While a drag runs, the dragged frame follows the pointer.
pub open spec fn on_motion_notify(m: WmModel, root_x: i16, root_y: i16) -> Seq<Request> {
    match m.drag_window {
        Some((win, (x, y))) => seq![
            Request::ConfigureWindow { window: win, changes: move_changes(x + root_x, y + root_y) },
        ],
        None => no_requests(),
    }
}

/// Releasing the close key over a managed window asks its client to close it.
pub open spec fn on_key_release(m: WmModel, detail: u8, child: u32) -> Seq<Request> {
    if detail == CLOSE_KEYCODE {
        match find_window(m.windows, child) {
            Some(s) => seq![delete_request(m, s)],
            None => no_requests(),
        }
    } else {
        no_requests()
    }
}

/// The inputs on which handling an event of this kind is defined.
pub open spec fn dispatch_pre(m: WmModel, kind: EventKind) -> bool {
    match kind {
        EventKind::ConfigureRequest(req) => configure_request_pre(m, req),
        EventKind::ButtonPress(b) => button_press_pre(m, b),
        EventKind::ButtonRelease(b) => button_release_pre(m, b),
        EventKind::MotionNotify { root_x, root_y } => motion_pre(m, root_x, root_y),
        _ => true,
    }
}

/// Handling an event that is not ignored.
pub open spec fn dispatch(m: WmModel, kind: EventKind) -> (WmModel, ActionModel) {
    match kind {
        EventKind::UnmapNotify { window } => {
            let r = on_unmap_notify(m, window);
            (r.0, ActionModel::Requests(r.1))
        },
        EventKind::ConfigureRequest(req) => (m, ActionModel::Requests(on_configure_request(req))),
        EventKind::MapRequest { window } => (m, ActionModel::Manage(window)),
        EventKind::Expose { window } => (on_expose(m, window), ActionModel::Requests(no_requests())),
        EventKind::ButtonPress(b) => {
            let r = on_button_press(m, b);
            (r.0, ActionModel::Requests(r.1))
        },
        EventKind::ButtonRelease(b) => {
            let r = on_button_release(m, b);
            (r.0, ActionModel::Requests(r.1))
        },
        EventKind::MotionNotify { root_x, root_y } => (
            m,
            ActionModel::Requests(on_motion_notify(m, root_x, root_y)),
        ),
        EventKind::KeyRelease { detail, child } => (
            m,
            ActionModel::Requests(on_key_release(m, detail, child)),
        ),
        EventKind::Other => (m, ActionModel::Requests(no_requests())),
    }
}

/// The queue after an event with this sequence number arrived, and whether
/// the event is ignored.
pub open spec fn after_sequence(m: WmModel, sequence: Option<u16>) -> (WmModel, bool) {
    match sequence {
        Some(n) => (
            WmModel { sequences_to_ignore: drop_passed(m.sequences_to_ignore, n), ..m },
            is_ignored(m.sequences_to_ignore, n),
        ),
        None => (m, false),
    }
}

/// One event: it is checked against the queue, then, unless ignored, handled.
pub open spec fn step(m: WmModel, ev: Event) -> (WmModel, ActionModel) {
    let r = after_sequence(m, ev.sequence);
    if r.1 {
        (r.0, ActionModel::Ignored)
    } else {
        dispatch(r.0, ev.kind)
    }
}

pub open spec fn step_pre(m: WmModel, ev: Event) -> bool {
    let r = after_sequence(m, ev.sequence);
    r.1 || dispatch_pre(r.0, ev.kind)
}

/// A window found at start is adopted when both its attributes and its
/// geometry are known, it does not bypass the manager, and it is mapped.
pub open spec fn adoptable(sw: ScannedWindow) -> bool {
    &&& sw.attributes matches Some(a)
    &&& sw.geometry is Some
    &&& !a.override_redirect
    &&& a.map_state != MAP_STATE_UNMAPPED
}

/// The windows of `scanned` to adopt, in order, with their geometry.
pub open spec fn adopted(scanned: Seq<ScannedWindow>) -> Seq<(u32, Geometry)>
    decreases scanned.len(),
{
    if scanned.len() == 0 {
        Seq::empty()
    } else {
        let rest = adopted(scanned.drop_last());
        let sw = scanned.last();
        if adoptable(sw) {
            rest.push((sw.window, sw.geometry->0))
        } else {
            rest
        }
    }
}

/// Grabs of the close key on `root`: alone with Mod1, with Lock and Mod1,
/// and with Mod2, Lock and Mod1.
pub open spec fn close_key_grab_requests(root: u32) -> Seq<Request> {
    seq![
        Request::GrabKey { window: root, modifiers: MOD1_MASK, keycode: CLOSE_KEYCODE },
        Request::GrabKey { window: root, modifiers: LOCK_MASK | MOD1_MASK, keycode: CLOSE_KEYCODE },
        Request::GrabKey {
            window: root,
            modifiers: MOD2_MASK | LOCK_MASK | MOD1_MASK,
            keycode: CLOSE_KEYCODE,
        },
    ]
}

/// The state after the events `evs` are handled one after another.
pub open spec fn run(m: WmModel, evs: Seq<Event>) -> WmModel
    decreases evs.len(),
{
    if evs.len() == 0 {
        m
    } else {
        step(run(m, evs.drop_last()), evs.last()).0
    }
}

/// A press that starts a drag: a plain press of the drag button, while no
/// drag runs, left of the close area of a managed window.
pub open spec fn press_starts_drag(m: WmModel, b: ButtonEvent) -> bool {
    &&& b.detail == DRAG_BUTTON
    &&& b.state == 0
    &&& m.drag_window is None
    &&& find_window(m.windows, b.event) matches Some(s)
    &&& b.event_x < close_area_of(s.width)
}

/// `ev` is not ignored and is a press that starts a drag.
pub open spec fn event_starts_drag(m: WmModel, ev: Event) -> bool {
    let r = after_sequence(m, ev.sequence);
    &&& !r.1
    &&& ev.kind matches EventKind::ButtonPress(b)
    &&& press_starts_drag(r.0, b)
}

/// The records redrawn for the exposed ids `ids`, visited in this order.
pub open spec fn redraw_list(ids: Seq<u32>, ws: Seq<WindowState>) -> Seq<WindowState>
    decreases ids.len(),
{
    if ids.len() == 0 {
        Seq::empty()
    } else {
        let rest = redraw_list(ids.drop_last(), ws);
        match find_window(ws, ids.last()) {
            Some(s) => rest.push(s),
            None => rest,
        }
    }
}

} // verus!
