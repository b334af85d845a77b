use vstd::prelude::*;

use crate::model::{
    event_starts_drag, id_unused, ids_distinct, run,
    move_changes, on_button_press, on_button_release, on_manage,
    on_motion_notify, on_unmap_notify, redraw_list, release_requests, retained, step,
    unmap_requests, WmModel, manage_pre,
};
use crate::titlebar::{cross_origin, first_stroke, second_stroke};
use crate::protocol::{ButtonEvent, Event, Request, DRAG_BUTTON};
use crate::sequence_queue::{drop_passed, is_ignored, passed, sorted};
use crate::window::{
    close_area_of, find_window, is_first_match, lemma_find_index, lemma_find_index_at, matches_id, Geometry,
    WindowState, TITLEBAR_HEIGHT,
};

verus! {

/// An ascending queue that holds `n`, and in which every number below `n`
/// has been passed by `n`, ignores an event numbered `n`.
proof fn lemma_ignored_when_queued(t: Seq<u16>, n: u16)
    requires
        sorted(t),
        t.contains(n),
        forall|i: int| 0 <= i < t.len() && t[i] < n ==> passed(#[trigger] t[i], n),
    ensures
        is_ignored(t, n),
    decreases t.len(),
{
    let j = choose|j: int| 0 <= j < t.len() && t[j] == n;
    if t[0] < n {
        let u = t.drop_first();
        assert(u[j - 1] == n);
        assert(u.contains(n));
        assert forall|i: int| 0 <= i < u.len() && u[i] < n implies passed(#[trigger] u[i], n) by {
            assert(u[i] == t[i + 1]);
        }
        lemma_ignored_when_queued(u, n);
    } else {
        assert(t[0] <= t[j]);
        assert(!passed(t[0], n));
    }
}

/// Law: the events of the manager's own requests are ignored. When the
/// sequence number `n` of a request is queued, an event numbered `n` is
/// ignored, provided every number queued below `n` is one that `n` has
/// passed (on the 16-bit wrapping clock).
pub proof fn law_own_events_ignored(s: Seq<u16>, t: Seq<u16>, n: u16)
    requires
        sorted(s),
        sorted(t),
        t.to_multiset() == s.to_multiset().insert(n),
        forall|i: int| 0 <= i < s.len() && s[i] < n ==> passed(#[trigger] s[i], n),
    ensures
        is_ignored(t, n),
{
    broadcast use vstd::seq_lib::group_to_multiset_ensures;
    broadcast use vstd::multiset::group_multiset_axioms;

    assert(t.to_multiset().count(n) > 0);
    assert(t.contains(n));
    assert forall|i: int| 0 <= i < t.len() && t[i] < n implies passed(#[trigger] t[i], n) by {
        let v = t[i];
        assert(t.contains(v));
        assert(t.to_multiset().count(v) > 0);
        assert(s.to_multiset().count(v) > 0);
        assert(s.contains(v));
        let k = choose|k: int| 0 <= k < s.len() && s[k] == v;
        assert(passed(s[k], n));
    }
    lemma_ignored_when_queued(t, n);
}

/// Law: checking an event against the queue twice is the same as checking
/// it once: the second check drops nothing more and decides the same.
pub proof fn law_check_idempotent(s: Seq<u16>, n: u16)
    ensures
        drop_passed(drop_passed(s, n), n) == drop_passed(s, n),
        is_ignored(drop_passed(s, n), n) == is_ignored(s, n),
    decreases s.len(),
{
    if s.len() > 0 && passed(s[0], n) {
        law_check_idempotent(s.drop_first(), n);
    }
}

/// Law: an ignored event changes nothing but the queue, and an event that
/// carries no sequence number is never ignored.
pub proof fn law_ignored_event_changes_only_queue(m: WmModel, ev: Event)
    ensures
        step(m, ev).1 is Ignored ==> step(m, ev).0 == (WmModel {
            sequences_to_ignore: step(m, ev).0.sequences_to_ignore,
            ..m
        }),
        ev.sequence is None ==> !(step(m, ev).1 is Ignored),
{
}

proof fn lemma_retained_absent(ws: Seq<WindowState>, w: u32)
    requires
        forall|i: int| 0 <= i < ws.len() ==> (#[trigger] ws[i]).window != w,
    ensures
        retained(ws, w) == ws,
    decreases ws.len(),
{
    if ws.len() > 0 {
        let u = ws.drop_last();
        assert forall|i: int| 0 <= i < u.len() implies (#[trigger] u[i]).window != w by {
            assert(u[i] == ws[i]);
        }
        lemma_retained_absent(u, w);
        assert(u.push(ws.last()) =~= ws);
    }
}

proof fn lemma_unmap_requests_absent(ws: Seq<WindowState>, w: u32, root: u32)
    requires
        forall|i: int| 0 <= i < ws.len() ==> (#[trigger] ws[i]).window != w,
    ensures
        unmap_requests(ws, w, root) == Seq::<Request>::empty(),
    decreases ws.len(),
{
    if ws.len() > 0 {
        let u = ws.drop_last();
        assert forall|i: int| 0 <= i < u.len() implies (#[trigger] u[i]).window != w by {
            assert(u[i] == ws[i]);
        }
        lemma_unmap_requests_absent(u, w, root);
    }
}

/// Law: unmapping a window undoes its adoption. After `win` is adopted
/// into `frame`, its unmap notification restores the manager's state as it
/// was, and gives `win` back to the root where it stood and destroys the
/// frame.
pub proof fn law_unmap_undoes_manage(m: WmModel, win: u32, frame: u32, geom: Geometry)
    requires
        manage_pre(m, win, geom),
    ensures
        on_unmap_notify(on_manage(m, win, frame, geom).0, win).0 == m,
        on_unmap_notify(on_manage(m, win, frame, geom).0, win).1 == seq![
            Request::ChangeSaveSet { insert: false, window: win },
            Request::ReparentWindow { window: win, parent: m.root, x: geom.x, y: geom.y, ignore_events: false },
            Request::DestroyWindow { window: frame },
        ],
{
    lemma_find_index(m.windows, win);
    assert forall|i: int| 0 <= i < m.windows.len() implies (#[trigger] m.windows[i]).window
        != win by {
        assert(!matches_id(m.windows[i], win));
    }
    let m1 = on_manage(m, win, frame, geom).0;
    let s = WindowState { window: win, frame_window: frame, x: geom.x, y: geom.y, width: geom.width };
    assert(m1.windows.drop_last() =~= m.windows);
    lemma_retained_absent(m.windows, win);
    lemma_unmap_requests_absent(m.windows, win, m.root);
    assert(on_unmap_notify(m1, win).0 =~= m);
    assert(unmap_requests(m1.windows, win, m.root) =~= release_requests(s, m.root));
}

/// Law: adopting a window into a fresh frame keeps every client window and
/// every frame owned by exactly one record.
pub proof fn law_manage_keeps_ids_distinct(m: WmModel, win: u32, frame: u32, geom: Geometry)
    requires
        manage_pre(m, win, geom),
        ids_distinct(m.windows),
        frame != win,
        id_unused(m.windows, frame),
    ensures
        ids_distinct(on_manage(m, win, frame, geom).0.windows),
{
    lemma_find_index(m.windows, win);
    let ws = on_manage(m, win, frame, geom).0.windows;
    let n = m.windows.len() as int;
    assert forall|i: int| 0 <= i < n implies #[trigger] ws[i] == m.windows[i] by {}
    assert forall|i: int, j: int|
        0 <= i < ws.len() && 0 <= j < ws.len() && i != j implies {
            &&& (#[trigger] ws[i]).window != (#[trigger] ws[j]).window
            &&& ws[i].frame_window != ws[j].frame_window
            &&& ws[i].window != ws[j].frame_window
        } by {
        if i == n {
            assert(ws[j] == m.windows[j]);
            assert(!matches_id(m.windows[j], win));
            assert(!matches_id(m.windows[j], frame));
        } else if j == n {
            assert(ws[i] == m.windows[i]);
            assert(!matches_id(m.windows[i], win));
            assert(!matches_id(m.windows[i], frame));
        } else {
            assert(ws[i] == m.windows[i]);
            assert(ws[j] == m.windows[j]);
        }
    }
    assert forall|i: int| 0 <= i < ws.len() implies (#[trigger] ws[i]).window != ws[i].frame_window by {
        if i < n {
            assert(ws[i] == m.windows[i]);
        }
    }
}

/// Law: an adopted window is found by its own id, as the record the
/// adoption made.
pub proof fn law_managed_window_found(m: WmModel, win: u32, frame: u32, geom: Geometry)
    requires
        manage_pre(m, win, geom),
    ensures
        find_window(on_manage(m, win, frame, geom).0.windows, win) == Some(
            WindowState { window: win, frame_window: frame, x: geom.x, y: geom.y, width: geom.width },
        ),
{
    let ws = on_manage(m, win, frame, geom).0.windows;
    lemma_find_index(m.windows, win);
    assert forall|j: int| 0 <= j < m.windows.len() implies !matches_id(#[trigger] ws[j], win) by {
        assert(ws[j] == m.windows[j]);
        assert(!matches_id(m.windows[j], win));
    }
    assert(is_first_match(ws, win, m.windows.len() as int));
    lemma_find_index_at(ws, win, m.windows.len() as int);
}

/// Law: unmapping `w` drops exactly the records whose client window is
/// `w`; every other record stays.
pub proof fn law_unmap_forgets(m: WmModel, w: u32)
    ensures
        forall|s: WindowState|
            #[trigger] on_unmap_notify(m, w).0.windows.contains(s) <==> (m.windows.contains(s)
                && s.window != w),
    decreases m.windows.len(),
{
    let ws = m.windows;
    if ws.len() > 0 {
        let m0 = WmModel { windows: ws.drop_last(), ..m };
        law_unmap_forgets(m0, w);
        assert forall|s: WindowState|
            #[trigger] on_unmap_notify(m, w).0.windows.contains(s) <==> (ws.contains(s) && s.window
                != w) by {
            let r0 = retained(ws.drop_last(), w);
            assert(on_unmap_notify(m0, w).0.windows == r0);
            if ws.contains(s) && s.window != w {
                let k = choose|k: int| 0 <= k < ws.len() && ws[k] == s;
                if k < ws.len() - 1 {
                    assert(ws.drop_last()[k] == s);
                    assert(ws.drop_last().contains(s));
                    assert(r0.contains(s));
                    if ws.last().window != w {
                        assert(r0.push(ws.last())[r0.index_of(s)] == s);
                    }
                } else {
                    assert(r0.push(ws.last())[r0.len() as int] == s);
                }
            }
            if retained(ws, w).contains(s) {
                if ws.last().window != w && s == ws.last() {
                } else {
                    assert(r0.contains(s)) by {
                        if ws.last().window != w {
                            let k = choose|k: int| 0 <= k < r0.len() + 1 && r0.push(ws.last())[k] == s;
                            assert(r0[k] == s);
                        }
                    }
                    let k = choose|k: int| 0 <= k < ws.drop_last().len() && ws.drop_last()[k] == s;
                    assert(ws[k] == s);
                }
            }
        }
    }
}

/// Law: a drag moves the frame with the pointer. After a plain press of the
/// drag button left of the close area of a managed window, while no drag
/// runs, a pointer motion to (`root_x`, `root_y`) moves the window's frame
/// so that the pressed point stays under the pointer.
pub proof fn law_drag_follows_pointer(m: WmModel, b: ButtonEvent, root_x: i16, root_y: i16)
    requires
        m.drag_window is None,
        b.detail == DRAG_BUTTON,
        b.state == 0,
        find_window(m.windows, b.event) matches Some(s) && s.width >= TITLEBAR_HEIGHT
            && b.event_x < close_area_of(s.width),
        b.event_x != i16::MIN,
        b.event_y != i16::MIN,
        i16::MIN <= root_x - b.event_x <= i16::MAX,
        i16::MIN <= root_y - b.event_y <= i16::MAX,
    ensures
        on_motion_notify(on_button_press(m, b).0, root_x, root_y) == seq![
            Request::ConfigureWindow {
                window: find_window(m.windows, b.event)->0.frame_window,
                changes: move_changes(root_x - b.event_x, root_y - b.event_y),
            },
        ],
{
}

/// Law: releasing the drag button ends any drag, after which pointer
/// motion moves nothing.
pub proof fn law_release_ends_drag(m: WmModel, b: ButtonEvent, root_x: i16, root_y: i16)
    requires
        b.detail == DRAG_BUTTON,
    ensures
        on_button_release(m, b).0.drag_window is None,
        on_motion_notify(on_button_release(m, b).0, root_x, root_y) == Seq::<Request>::empty(),
{
}

/// Without a drag, only an event that starts one starts one.
proof fn lemma_step_keeps_no_drag(m: WmModel, ev: Event)
    requires
        m.drag_window is None,
        !event_starts_drag(m, ev),
    ensures
        step(m, ev).0.drag_window is None,
{
}

/// Without a drag, a run of events none of which starts one leaves no drag.
proof fn lemma_run_keeps_no_drag(m: WmModel, evs: Seq<Event>)
    requires
        m.drag_window is None,
        forall|i: int|
            0 <= i < evs.len() ==> !event_starts_drag(run(m, evs.take(i)), #[trigger] evs[i]),
    ensures
        run(m, evs).drag_window is None,
    decreases evs.len(),
{
    if evs.len() > 0 {
        let u = evs.drop_last();
        assert forall|i: int|
            0 <= i < u.len() implies !event_starts_drag(run(m, u.take(i)), #[trigger] u[i]) by {
            assert(u.take(i) =~= evs.take(i));
            assert(u[i] == evs[i]);
        }
        lemma_run_keeps_no_drag(m, u);
        assert(evs.take(evs.len() - 1) =~= u);
        assert(!event_starts_drag(run(m, u), evs[evs.len() - 1]));
        lemma_step_keeps_no_drag(run(m, u), evs.last());
    }
}

/// Law: once the drag button is released, no drag runs until an event
/// starts one: after the release and any events that follow, none of which
/// is a handled press starting a drag, pointer motion moves nothing.
pub proof fn law_no_drag_after_release(
    m: WmModel,
    b: ButtonEvent,
    evs: Seq<Event>,
    root_x: i16,
    root_y: i16,
)
    requires
        b.detail == DRAG_BUTTON,
        forall|i: int|
            0 <= i < evs.len() ==> !event_starts_drag(
                run(on_button_release(m, b).0, evs.take(i)),
                #[trigger] evs[i],
            ),
    ensures
        run(on_button_release(m, b).0, evs).drag_window is None,
        on_motion_notify(run(on_button_release(m, b).0, evs), root_x, root_y) == Seq::<
            Request,
        >::empty(),
{
    lemma_run_keeps_no_drag(on_button_release(m, b).0, evs);
}

/// Law: widening a titlebar by `d` pixels moves the close button's cross
/// right by `d` and changes nothing else of it, for titlebars between
/// `TITLEBAR_HEIGHT` and 32767 pixels wide, whatever the bar height.
pub proof fn law_titlebar_shift(width: u16, d: int, bar_height: int)
    requires
        TITLEBAR_HEIGHT <= width <= 32767,
        TITLEBAR_HEIGHT <= width + d <= 32767,
    ensures
        ({
            let o1 = cross_origin(width, bar_height);
            let o2 = cross_origin((width + d) as u16, bar_height);
            &&& first_stroke(o2).len() == first_stroke(o1).len()
            &&& second_stroke(o2).len() == second_stroke(o1).len()
            &&& forall|i: int|
                0 <= i < first_stroke(o1).len() ==> #[trigger] first_stroke(o2)[i].x == first_stroke(
                    o1,
                )[i].x + d && first_stroke(o2)[i].y == first_stroke(o1)[i].y
            &&& forall|i: int|
                0 <= i < second_stroke(o1).len() ==> #[trigger] second_stroke(o2)[i].x
                    == second_stroke(o1)[i].x + d && second_stroke(o2)[i].y == second_stroke(o1)[i].y
        }),
{
    let o1 = cross_origin(width, bar_height);
    let o2 = cross_origin((width + d) as u16, bar_height);
    assert(o1.0 == width - 15);
    assert(o2.0 == width + d - 15);
    assert(o1.1 == o2.1);
}

/// Law: every exposed window that is managed is redrawn, and only managed
/// windows of exposed ids are.
pub proof fn law_exposed_windows_redrawn(ids: Seq<u32>, ws: Seq<WindowState>)
    ensures
        forall|w: u32|
            #[trigger] ids.contains(w) && find_window(ws, w) is Some ==> redraw_list(
                ids,
                ws,
            ).contains(find_window(ws, w)->0),
        forall|s: WindowState|
            #[trigger] redraw_list(ids, ws).contains(s) ==> exists|w: u32|
                ids.contains(w) && find_window(ws, w) == Some(s),
    decreases ids.len(),
{
    if ids.len() > 0 {
        let u = ids.drop_last();
        law_exposed_windows_redrawn(u, ws);
        let r0 = redraw_list(u, ws);
        let r = redraw_list(ids, ws);
        assert forall|w: u32|
            #[trigger] ids.contains(w) && find_window(ws, w) is Some implies r.contains(
                find_window(ws, w)->0,
            ) by {
            let k = choose|k: int| 0 <= k < ids.len() && ids[k] == w;
            if k < ids.len() - 1 {
                assert(u[k] == w);
                assert(u.contains(w));
                assert(r0.contains(find_window(ws, w)->0));
                let j = choose|j: int| 0 <= j < r0.len() && r0[j] == find_window(ws, w)->0;
                if find_window(ws, ids.last()) is Some {
                    assert(r[j] == r0[j]);
                }
            } else {
                assert(ids.last() == w);
                assert(r[r0.len() as int] == find_window(ws, w)->0);
            }
        }
        assert forall|s: WindowState| #[trigger] r.contains(s) implies exists|w: u32|
            ids.contains(w) && find_window(ws, w) == Some(s) by {
            let j = choose|j: int| 0 <= j < r.len() && r[j] == s;
            if j < r0.len() {
                assert(r0[j] == s);
                assert(r0.contains(s));
                let w = choose|w: u32| u.contains(w) && find_window(ws, w) == Some(s);
                let k = choose|k: int| 0 <= k < u.len() && u[k] == w;
                assert(ids[k] == w);
                assert(ids.contains(w));
            } else {
                assert(ids[ids.len() - 1] == ids.last());
                assert(ids.contains(ids.last()));
            }
        }
    }
}

} // verus!
