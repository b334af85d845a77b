use vstd::prelude::*;

use crate::model::{
    adopted, step_pre, on_button_press, on_button_release, on_configure_request, on_expose, on_key_release,
    on_manage, on_motion_notify, on_request_sent, on_unmap_notify, step, WmModel,
};
use crate::protocol::{
    requested_changes, ActionModel, ButtonEvent, ConfigureRequest, Event, EventKind, Request,
    WindowChanges, CLOSE_KEYCODE, CONFIG_BORDER_WIDTH, CONFIG_HEIGHT, CONFIG_WIDTH, CONFIG_X,
    CONFIG_Y, DRAG_BUTTON, ScannedWindow,
};
use crate::titlebar::{cross_origin, cross_point, first_stroke, second_stroke};
use crate::sequence_queue::{drop_passed, insert_sorted, is_ignored, passed};
use crate::window::{
    close_area_of, find_window, lemma_find_index, Geometry, WindowState, TITLEBAR_HEIGHT,
};

verus! {

/// The event is not one of the manager's own: it is handled.
pub open spec fn not_ignored(m: WmModel, ev: Event) -> bool {
    ev.sequence matches Some(n) ==> !is_ignored(m.sequences_to_ignore, n)
}

/// The queue once the event's sequence number was checked against it.
pub open spec fn queue_after(m: WmModel, ev: Event) -> Seq<u16> {
    match ev.sequence {
        Some(n) => drop_passed(m.sequences_to_ignore, n),
        None => m.sequences_to_ignore,
    }
}

/// `m` with its queue replaced by `q`.
pub open spec fn with_queue(m: WmModel, q: Seq<u16>) -> WmModel {
    WmModel { sequences_to_ignore: q, ..m }
}

/// The message that asks the client of window `w` to close it.
pub open spec fn close_message(m: WmModel, w: u32) -> Request {
    Request::SendDeleteWindow { window: w, protocols: m.wm_protocols, delete: m.wm_delete_window }
}

/// Law: the close area begins `TITLEBAR_HEIGHT` pixels before the end of
/// the titlebar.
pub proof fn law_close_area(width: u16)
    requires
        TITLEBAR_HEIGHT <= width <= 32767 + TITLEBAR_HEIGHT,
    ensures
        close_area_of(width) == width - TITLEBAR_HEIGHT,
{
}

/// Law: unmapping `w` gives back, in list order, every record whose client
/// is `w` and drops exactly those records. Adding a record at the end of
/// the list adds its three release requests (delete it from the save set,
/// reparent it to the root where it stood, destroy its frame) when its
/// client is `w`, and nothing otherwise; with no records, nothing happens.
/// Nothing but the list of records changes.
pub proof fn law_unmap_gives_windows_back(m: WmModel, t: WindowState, w: u32)
    ensures
        on_unmap_notify(WmModel { windows: Seq::empty(), ..m }, w).1 == Seq::<Request>::empty(),
        on_unmap_notify(WmModel { windows: Seq::empty(), ..m }, w).0.windows == Seq::<
            WindowState,
        >::empty(),
        on_unmap_notify(m, w).0 == (WmModel { windows: on_unmap_notify(m, w).0.windows, ..m }),
        on_unmap_notify(WmModel { windows: m.windows.push(t), ..m }, w).1 == on_unmap_notify(m, w).1
            + if t.window == w {
            seq![
                Request::ChangeSaveSet { insert: false, window: w },
                Request::ReparentWindow { window: w, parent: m.root, x: t.x, y: t.y, ignore_events: false },
                Request::DestroyWindow { window: t.frame_window },
            ]
        } else {
            Seq::<Request>::empty()
        },
        on_unmap_notify(WmModel { windows: m.windows.push(t), ..m }, w).0.windows == if t.window
            == w {
            on_unmap_notify(m, w).0.windows
        } else {
            on_unmap_notify(m, w).0.windows.push(t)
        },
{
    let m2 = WmModel { windows: m.windows.push(t), ..m };
    assert(m2.windows.drop_last() =~= m.windows);
    assert(on_unmap_notify(m, w).0 =~= WmModel { windows: on_unmap_notify(m, w).0.windows, ..m });
    if t.window != w {
        assert(on_unmap_notify(m2, w).1 =~= on_unmap_notify(m, w).1 + Seq::<Request>::empty());
    }
}

/// Law: a configure request is granted field by field: a field is changed
/// exactly when its bit is set in the value mask, and then to the value the
/// client asked for; nothing is raised.
pub proof fn law_configure_granted_as_asked(req: ConfigureRequest)
    ensures
        ({
            let c = requested_changes(req);
            &&& (c.x is Some <==> req.value_mask & CONFIG_X != 0)
            &&& (c.x matches Some(v) ==> v == req.x)
            &&& (c.y is Some <==> req.value_mask & CONFIG_Y != 0)
            &&& (c.y matches Some(v) ==> v == req.y)
            &&& (c.width is Some <==> req.value_mask & CONFIG_WIDTH != 0)
            &&& (c.width matches Some(v) ==> v == req.width)
            &&& (c.height is Some <==> req.value_mask & CONFIG_HEIGHT != 0)
            &&& (c.height matches Some(v) ==> v == req.height)
            &&& (c.border_width is Some <==> req.value_mask & CONFIG_BORDER_WIDTH != 0)
            &&& (c.border_width matches Some(v) ==> v == req.border_width)
            &&& !c.raise
        }),
        on_configure_request(req) == seq![
            Request::ConfigureWindow { window: req.window, changes: requested_changes(req) },
        ],
{
}

/// Law: releasing the close key over a managed window (its client or its
/// frame) sends one message asking its client to close it; releasing any
/// other key, or over no managed window, sends nothing.
pub proof fn law_close_key(m: WmModel, detail: u8, child: u32)
    ensures
        find_window(m.windows, child) matches Some(s) ==> (detail == CLOSE_KEYCODE
            ==> on_key_release(m, detail, child) == seq![close_message(m, s.window)]),
        detail != CLOSE_KEYCODE || find_window(m.windows, child) is None ==> on_key_release(
            m,
            detail,
            child,
        ) == Seq::<Request>::empty(),
{
}

/// Law: a release of any button on a managed window at or right of its
/// close area asks the window's client to close it; left of it, or over
/// no managed window, nothing is sent. Only a release of the drag button
/// ends a drag; a release of any other button changes no state at all.
pub proof fn law_button_release(m: WmModel, b: ButtonEvent)
    ensures
        find_window(m.windows, b.event) matches Some(s) ==> (b.event_x >= close_area_of(s.width)
            ==> on_button_release(m, b).1 == seq![close_message(m, s.window)]),
        find_window(m.windows, b.event) matches Some(s) ==> (b.event_x < close_area_of(s.width)
            ==> on_button_release(m, b).1 == Seq::<Request>::empty()),
        find_window(m.windows, b.event) is None ==> on_button_release(m, b).1 == Seq::<
            Request,
        >::empty(),
        b.detail != DRAG_BUTTON ==> on_button_release(m, b).0 == m,
        b.detail == DRAG_BUTTON ==> on_button_release(m, b).0 == (WmModel {
            drag_window: None,
            ..m
        }),
{
}

/// Law: while a drag runs, a release of another button leaves it running:
/// pointer motion still moves the dragged frame.
pub proof fn law_drag_survives_other_release(
    m: WmModel,
    b: ButtonEvent,
    root_x: i16,
    root_y: i16,
)
    requires
        b.detail != DRAG_BUTTON,
        m.drag_window is Some,
    ensures
        on_button_release(m, b).0.drag_window == m.drag_window,
        on_motion_notify(on_button_release(m, b).0, root_x, root_y) == on_motion_notify(
            m,
            root_x,
            root_y,
        ),
        on_motion_notify(m, root_x, root_y).len() == 1,
{
}

/// Law: a plain press of the drag button on a managed window focuses its
/// client and raises its frame (and changes nothing else of it); when no
/// drag runs and the press is left of the close area, the frame's drag
/// starts, holding the offset from the pointer to the frame. Any other
/// press, or one over no managed window, changes nothing and sends nothing.
pub proof fn law_button_press(m: WmModel, b: ButtonEvent)
    ensures
        b.detail != DRAG_BUTTON || b.state != 0 || find_window(m.windows, b.event) is None ==> (
        on_button_press(m, b).0 == m && on_button_press(m, b).1 == Seq::<Request>::empty()),
        find_window(m.windows, b.event) matches Some(s) ==> (b.detail == DRAG_BUTTON && b.state == 0
            ==> {
            &&& on_button_press(m, b).1 == seq![
                Request::SetInputFocus { window: s.window },
                Request::ConfigureWindow {
                    window: s.frame_window,
                    changes: WindowChanges {
                        x: None,
                        y: None,
                        width: None,
                        height: None,
                        border_width: None,
                        raise: true,
                    },
                },
            ]
            &&& if m.drag_window is None && b.event_x < close_area_of(s.width) {
                on_button_press(m, b).0 == (WmModel {
                    drag_window: Some(
                        (s.frame_window, ((-b.event_x) as i16, (-b.event_y) as i16)),
                    ),
                    ..m
                })
            } else {
                on_button_press(m, b).0 == m
            }
        }),
{
}

/// Law: while a drag of frame `f` with offset (`x`, `y`) runs, pointer
/// motion to (`root_x`, `root_y`) moves `f` to the pointer plus the offset
/// and changes nothing else of it; without a drag nothing is sent.
pub proof fn law_motion(m: WmModel, root_x: i16, root_y: i16)
    ensures
        m.drag_window matches Some((f, (x, y))) ==> on_motion_notify(m, root_x, root_y) == seq![
            Request::ConfigureWindow {
                window: f,
                changes: WindowChanges {
                    x: Some((x + root_x) as i32),
                    y: Some((y + root_y) as i32),
                    width: None,
                    height: None,
                    border_width: None,
                    raise: false,
                },
            },
        ],
        m.drag_window is None ==> on_motion_notify(m, root_x, root_y) == Seq::<Request>::empty(),
{
}

/// Law: an exposure queues the window for a redraw and changes nothing else.
pub proof fn law_expose(m: WmModel, w: u32)
    ensures
        on_expose(m, w).pending_expose.contains(w),
        forall|v: u32| v != w ==> (on_expose(m, w).pending_expose.contains(v) <==> m.pending_expose.contains(v)),
        on_expose(m, w) == (WmModel { pending_expose: on_expose(m, w).pending_expose, ..m }),
{
}

/// Law: adopting `win` into `frame` appends one record, of `win` in `frame`
/// at the client's position and width, and changes nothing else. The
/// requests create the frame at the client's position, as wide and
/// `TITLEBAR_HEIGHT` taller, as a child of the root; then, with the server
/// grabbed, save the client, reparent it into the frame just below the
/// titlebar (ignoring the events this causes), and map the client, then
/// the frame.
pub proof fn law_manage(m: WmModel, win: u32, frame: u32, geom: Geometry)
    requires
        geom.height + TITLEBAR_HEIGHT <= u16::MAX,
    ensures
        on_manage(m, win, frame, geom).0 == (WmModel {
            windows: m.windows.push(
                WindowState { window: win, frame_window: frame, x: geom.x, y: geom.y, width: geom.width },
            ),
            ..m
        }),
        ({
            let r = on_manage(m, win, frame, geom).1;
            &&& r.len() == 7
            &&& r[0] matches Request::CreateWindow { frame: f, parent, x, y, width, height, .. } && f
                == frame && parent == m.root && x == geom.x && y == geom.y && width == geom.width
                && height == geom.height + TITLEBAR_HEIGHT
            &&& r[1] == Request::GrabServer
            &&& r[2] == (Request::ChangeSaveSet { insert: true, window: win })
            &&& r[3] == (Request::ReparentWindow {
                window: win,
                parent: frame,
                x: 0,
                y: TITLEBAR_HEIGHT as i16,
                ignore_events: true,
            })
            &&& r[4] == (Request::MapWindow { window: win })
            &&& r[5] == (Request::MapWindow { window: frame })
            &&& r[6] == Request::UngrabServer
        }),
{
}

/// Law: a sent request adds the low 16 bits of its number to the queue
/// exactly when it is a reparenting whose events are to be ignored; any
/// other request changes nothing.
pub proof fn law_request_sent(m: WmModel, req: Request, sequence: u64)
    ensures
        (req matches Request::ReparentWindow { ignore_events: true, .. }) ==> on_request_sent(
            m,
            req,
            sequence,
        ) == with_queue(m, insert_sorted(m.sequences_to_ignore, (sequence % 65536) as u16)),
        !(req matches Request::ReparentWindow { ignore_events: true, .. }) ==> on_request_sent(
            m,
            req,
            sequence,
        ) == m,
{
}

/// Law: checking an event drops exactly the leading queued numbers that the
/// event's number has passed, and stops at the first one it has not passed
/// (at position `k`); the event is ignored exactly when that one equals its
/// number.
pub proof fn law_check_drops_passed_prefix(s: Seq<u16>, n: u16) -> (k: int)
    ensures
        0 <= k <= s.len(),
        drop_passed(s, n) == s.skip(k),
        forall|i: int| 0 <= i < k ==> passed(#[trigger] s[i], n),
        k < s.len() ==> !passed(s[k], n),
        is_ignored(s, n) == (k < s.len() && s[k] == n),
    decreases s.len(),
{
    if s.len() > 0 && passed(s[0], n) {
        let u = s.drop_first();
        let k = law_check_drops_passed_prefix(u, n);
        assert(u.skip(k) =~= s.skip(k + 1));
        assert forall|i: int| 0 <= i < k + 1 implies passed(#[trigger] s[i], n) by {
            if i > 0 {
                assert(s[i] == u[i - 1]);
            }
        }
        assert(k + 1 < s.len() ==> s[k + 1] == u[k]);
        k + 1
    } else {
        assert(s.skip(0) =~= s);
        0
    }
}

/// Law: a handled event does what its handler does, with the queue checked
/// first: unmap, configure request, map request, exposure, button press and
/// release, motion and key release each give the handler's state and
/// requests (a map request asks for the window to be adopted); any other
/// event changes nothing but the queue and sends nothing.
pub proof fn law_handled_event(m: WmModel, ev: Event)
    requires
        not_ignored(m, ev),
    ensures
        ({
            let m1 = with_queue(m, queue_after(m, ev));
            match ev.kind {
                EventKind::UnmapNotify { window } => step(m, ev).0 == with_queue(
                    on_unmap_notify(m, window).0,
                    queue_after(m, ev),
                ) && step(m, ev).1 == ActionModel::Requests(on_unmap_notify(m, window).1),
                EventKind::ConfigureRequest(req) => step(m, ev).0 == m1 && step(m, ev).1
                    == ActionModel::Requests(on_configure_request(req)),
                EventKind::MapRequest { window } => step(m, ev).0 == m1 && step(m, ev).1
                    == ActionModel::Manage(window),
                EventKind::Expose { window } => step(m, ev).0 == with_queue(
                    on_expose(m, window),
                    queue_after(m, ev),
                ) && step(m, ev).1 == ActionModel::Requests(Seq::empty()),
                EventKind::ButtonPress(b) => step(m, ev).0 == with_queue(
                    on_button_press(m, b).0,
                    queue_after(m, ev),
                ) && step(m, ev).1 == ActionModel::Requests(on_button_press(m, b).1),
                EventKind::ButtonRelease(b) => step(m, ev).0 == with_queue(
                    on_button_release(m, b).0,
                    queue_after(m, ev),
                ) && step(m, ev).1 == ActionModel::Requests(on_button_release(m, b).1),
                EventKind::MotionNotify { root_x, root_y } => step(m, ev).0 == m1 && step(m, ev).1
                    == ActionModel::Requests(on_motion_notify(m, root_x, root_y)),
                EventKind::KeyRelease { detail, child } => step(m, ev).0 == m1 && step(m, ev).1
                    == ActionModel::Requests(on_key_release(m, detail, child)),
                EventKind::Other => step(m, ev).0 == m1 && step(m, ev).1 == ActionModel::Requests(
                    Seq::empty(),
                ),
            }
        }),
{
    let m1 = with_queue(m, queue_after(m, ev));
    match ev.kind {
        EventKind::UnmapNotify { window } => {
            assert(on_unmap_notify(m1, window).0 =~= with_queue(on_unmap_notify(m, window).0, queue_after(m, ev)));
        },
        EventKind::Expose { window } => {
            assert(on_expose(m1, window) =~= with_queue(on_expose(m, window), queue_after(m, ev)));
        },
        EventKind::ButtonPress(b) => {
            assert(on_button_press(m1, b).0 =~= with_queue(on_button_press(m, b).0, queue_after(m, ev)));
        },
        EventKind::ButtonRelease(b) => {
            assert(on_button_release(m1, b).0 =~= with_queue(on_button_release(m, b).0, queue_after(m, ev)));
        },
        _ => {},
    }
}

/// Law: an event whose number the queue says to ignore is ignored: it only
/// drops the passed numbers from the queue. An event without a number, or
/// one the queue does not ignore, is handled.
pub proof fn law_ignored_event(m: WmModel, ev: Event)
    ensures
        ev.sequence matches Some(n) ==> (is_ignored(m.sequences_to_ignore, n) ==> (step(m, ev).1
            is Ignored && step(m, ev).0 == with_queue(m, drop_passed(m.sequences_to_ignore, n)))),
        not_ignored(m, ev) ==> !(step(m, ev).1 is Ignored),
{
    if ev.sequence is Some {
        let n = ev.sequence->0;
        if is_ignored(m.sequences_to_ignore, n) {
            assert(step(m, ev).0 =~= with_queue(m, drop_passed(m.sequences_to_ignore, n)));
        }
    }
    if not_ignored(m, ev) {
        law_handled_event(m, ev);
    }
}

/// Law: releasing the close key over a managed window, as a handled event,
/// sends exactly one message asking that window's client to close it.
pub proof fn law_close_key_event(m: WmModel, ev: Event, child: u32)
    requires
        not_ignored(m, ev),
        ev.kind == (EventKind::KeyRelease { detail: CLOSE_KEYCODE, child }),
        find_window(m.windows, child) is Some,
    ensures
        step(m, ev).1 == ActionModel::Requests(
            seq![close_message(m, find_window(m.windows, child)->0.window)],
        ),
{
    law_handled_event(m, ev);
    law_close_key(m, CLOSE_KEYCODE, child);
}

/// Law: a queued number has been passed by `n` exactly when it lies 1 to
/// 32768 steps before `n` on the 16-bit wrapping clock.
pub proof fn law_passed_means_behind(a: u16, n: u16)
    ensures
        passed(a, n) <==> exists|d: int| 1 <= d <= 32768 && #[trigger] ((a + d) % 65536) == n,
{
    if passed(a, n) {
        let d: int = if a >= n { 65536 - (a - n) } else { n - a };
        assert((a + d) % 65536 == n);
    }
    if exists|d: int| 1 <= d <= 32768 && #[trigger] ((a + d) % 65536) == n {
        let d = choose|d: int| 1 <= d <= 32768 && #[trigger] ((a + d) % 65536) == n;
        if a + d < 65536 {
            assert(a + d == n);
        } else {
            assert(a + d - 65536 == n);
        }
    }
}

/// Law: the record found for `id` is the first one whose client window or
/// frame is `id`; none is found exactly when no record has `id` as either.
pub proof fn law_find_window(ws: Seq<WindowState>, id: u32)
    ensures
        find_window(ws, id) matches Some(s) ==> exists|i: int|
            {
                &&& 0 <= i < ws.len()
                &&& #[trigger] ws[i] == s
                &&& (s.window == id || s.frame_window == id)
                &&& forall|j: int|
                    0 <= j < i ==> (#[trigger] ws[j]).window != id && ws[j].frame_window != id
            },
        find_window(ws, id) is None <==> forall|j: int|
            0 <= j < ws.len() ==> (#[trigger] ws[j]).window != id && ws[j].frame_window != id,
{
    lemma_find_index(ws, id);
    if let Some(i) = crate::window::find_index(ws, id) {
        assert(ws[i] == find_window(ws, id)->0);
    }
}

/// Law: a window found at start is adopted, after those before it, exactly
/// when both its attributes and its geometry are known, it does not bypass
/// the manager, and it is mapped (its map state is not 0).
pub proof fn law_scan(scanned: Seq<ScannedWindow>, x: ScannedWindow)
    ensures
        adopted(Seq::empty()) == Seq::<(u32, Geometry)>::empty(),
        adopted(scanned.push(x)) == adopted(scanned) + match (x.attributes, x.geometry) {
            (Some(a), Some(g)) => if !a.override_redirect && a.map_state != 0 {
                seq![(x.window, g)]
            } else {
                Seq::empty()
            },
            _ => Seq::empty(),
        },
{
    assert(scanned.push(x).drop_last() =~= scanned);
    match (x.attributes, x.geometry) {
        (Some(a), Some(g)) => {
            if !(!a.override_redirect && a.map_state != 0) {
                assert(adopted(scanned) + Seq::<(u32, Geometry)>::empty() =~= adopted(scanned));
            }
        },
        _ => {
            assert(adopted(scanned) + Seq::<(u32, Geometry)>::empty() =~= adopted(scanned));
        },
    }
}

/// Law: the close button's cross has its top-left corner 15 pixels left of
/// the titlebar's right end and at half the bar height less 5 (halving
/// toward zero); each stroke is three parallel 45-degree lines, and the
/// second stroke is the first one mirrored top to bottom across the cross.
pub proof fn law_cross_shape(width: u16, bar_height: int)
    ensures
        cross_origin(width, bar_height) == (
            width - 15,
            (if bar_height >= 0 { bar_height / 2 } else { -((-bar_height) / 2) }) - 5,
        ),
        ({
            let o = cross_origin(width, bar_height);
            let f = first_stroke(o);
            let g = second_stroke(o);
            &&& f.len() == 6 && g.len() == 6
            &&& (TITLEBAR_HEIGHT <= width <= 32767 && -32760 <= o.1 <= 32759) ==> {
                &&& f[0].x == o.0 + 1 && f[0].y == o.1
                &&& f[1].x - f[0].x == f[1].y - f[0].y
                &&& f[3].x - f[2].x == f[3].y - f[2].y
                &&& f[5].x - f[4].x == f[5].y - f[4].y
                &&& forall|i: int|
                    0 <= i < 6 ==> #[trigger] g[i].x == f[mirror_index(i)].x && g[i].y == 2 * o.1
                        + 8 - f[mirror_index(i)].y
            }
        }),
{
    let o = cross_origin(width, bar_height);
    if TITLEBAR_HEIGHT <= width <= 32767 && -32760 <= o.1 <= 32759 {
        let f = first_stroke(o);
        let g = second_stroke(o);
        assert(o.0 == width - 15);
        assert forall|dx: int, dy: int| 0 <= dx <= 8 && 0 <= dy <= 8 implies {
            &&& (#[trigger] cross_point(o, dx, dy)).x == o.0 + dx
            &&& cross_point(o, dx, dy).y == o.1 + dy
        } by {
            let vx = o.0 + dx;
            let vy = o.1 + dy;
            assert(-32768 <= vx <= 32767);
            assert(-32768 <= vy <= 32767);
        }
        assert(f[0] == cross_point(o, 1, 0) && f[1] == cross_point(o, 8, 7));
        assert(f[2] == cross_point(o, 1, 1) && f[3] == cross_point(o, 7, 7));
        assert(f[4] == cross_point(o, 0, 1) && f[5] == cross_point(o, 7, 8));
        assert(g[0] == cross_point(o, 0, 7) && g[1] == cross_point(o, 7, 0));
        assert(g[2] == cross_point(o, 1, 7) && g[3] == cross_point(o, 7, 1));
        assert(g[4] == cross_point(o, 1, 8) && g[5] == cross_point(o, 8, 1));
        assert forall|i: int| 0 <= i < 6 implies #[trigger] g[i].x == f[mirror_index(i)].x && g[i].y
            == 2 * o.1 + 8 - f[mirror_index(i)].y by {
            if i == 0 {} else if i == 1 {} else if i == 2 {} else if i == 3 {} else if i == 4 {} else {}
        }
    }
}

/// Which point of the first stroke each point of the second mirrors.
pub open spec fn mirror_index(i: int) -> int {
    if i == 0 { 4 } else if i == 1 { 5 } else if i == 2 { 2 } else if i == 3 { 3 } else if i == 4 { 0 } else { 1 }
}

/// Law: an event that is handled, not ignored, can be handled exactly when
/// it is not a configure request of a managed window, a press that would
/// start a drag on a window narrower than the titlebar's close area or at
/// the most negative coordinate, a release over a window narrower than
/// `TITLEBAR_HEIGHT`, or a motion that moves the dragged frame out of the
/// `i16` range.
pub proof fn law_when_defined(m: WmModel, ev: Event)
    requires
        not_ignored(m, ev),
    ensures
        step_pre(m, ev) <==> match ev.kind {
            EventKind::ConfigureRequest(req) => forall|j: int|
                0 <= j < m.windows.len() ==> (#[trigger] m.windows[j]).window != req.window
                    && m.windows[j].frame_window != req.window,
            EventKind::ButtonPress(b) => (b.detail == DRAG_BUTTON && b.state == 0
                && m.drag_window is None && find_window(m.windows, b.event) is Some) ==> {
                let s = find_window(m.windows, b.event)->0;
                &&& s.width >= TITLEBAR_HEIGHT
                &&& b.event_x < close_area_of(s.width) ==> b.event_x > -32768 && b.event_y > -32768
            },
            EventKind::ButtonRelease(b) => find_window(m.windows, b.event) is Some ==> find_window(
                m.windows,
                b.event,
            )->0.width >= TITLEBAR_HEIGHT,
            EventKind::MotionNotify { root_x, root_y } => match m.drag_window {
                Some((f, (x, y))) => -32768 <= x + root_x <= 32767 && -32768 <= y + root_y <= 32767,
                None => true,
            },
            _ => true,
        },
{
    lemma_find_index(m.windows, 0);
    match ev.kind {
        EventKind::ConfigureRequest(req) => {
            lemma_find_index(m.windows, req.window);
        },
        _ => {},
    }
}

} // verus!
