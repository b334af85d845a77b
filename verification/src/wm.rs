use std::collections::HashSet;

use vstd::prelude::*;
use vstd::std_specs::iter::IteratorSpec;

use crate::laws::law_exposed_windows_redrawn;
use crate::model::{
    adopted, button_press_pre, button_release_pre, close_key_grab_requests, configure_request_pre,
    frame_requests, manage_pre, motion_pre, on_button_press, on_button_release,
    on_configure_request, on_expose, on_key_release, on_manage, on_motion_notify, on_request_sent,
    on_unmap_notify, redraw_list, release_requests, retained, step, step_pre, unmap_requests,
    WmModel,
};
use crate::protocol::{
    Action, ButtonEvent, ConfigureRequest, Event, EventKind, Point, Request, WindowChanges,
    ScannedWindow, CLOSE_KEYCODE, DRAG_BUTTON, LOCK_MASK, MAP_STATE_UNMAPPED, MOD1_MASK, MOD2_MASK,
    SPACE,
};
use crate::titlebar::{
    bar_height_of, cross_origin, first_stroke, second_stroke, TitlebarDrawing,
};
use crate::sequence_queue::{insert_sorted, sorted, SequenceQueue};
use crate::window::{find_index, find_window, position_of, Geometry, WindowState, TITLEBAR_HEIGHT};

verus! {

/// The state of the window manager.
pub struct WmState {
    pub screen_num: usize,
    /// Root window of the managed screen.
    pub root: u32,
    /// Graphics context the titlebars are drawn with.
    pub black_gc: u32,
    pub windows: Vec<WindowState>,
    pub pending_expose: HashSet<u32>,
    /// The `WM_PROTOCOLS` atom.
    pub wm_protocols: u32,
    /// The `WM_DELETE_WINDOW` atom.
    pub wm_delete_window: u32,
    pub sequences_to_ignore: SequenceQueue,
    pub drag_window: Option<(u32, (i16, i16))>,
    pub font_ascent: i16,
    pub font_descent: i16,
}

impl View for WmState {
    type V = WmModel;

    open spec fn view(&self) -> WmModel {
        WmModel {
            screen_num: self.screen_num,
            root: self.root,
            black_gc: self.black_gc,
            windows: self.windows@,
            pending_expose: self.pending_expose@,
            wm_protocols: self.wm_protocols,
            wm_delete_window: self.wm_delete_window,
            sequences_to_ignore: self.sequences_to_ignore@,
            drag_window: self.drag_window,
            font_ascent: self.font_ascent,
            font_descent: self.font_descent,
        }
    }
}

impl WmState {
    /// The queue of ignored sequence numbers stays ascending.
    pub open spec fn wf(&self) -> bool {
        sorted(self@.sequences_to_ignore)
    }

    /// A manager of screen `screen_num` with root `root` that manages no
    /// window yet.
    pub fn new(
        screen_num: usize,
        root: u32,
        black_gc: u32,
        wm_protocols: u32,
        wm_delete_window: u32,
        font_ascent: i16,
        font_descent: i16,
    ) -> (wm: WmState)
        ensures
            wm.wf(),
            wm@ == (WmModel {
                screen_num,
                root,
                black_gc,
                windows: Seq::empty(),
                pending_expose: Set::empty(),
                wm_protocols,
                wm_delete_window,
                sequences_to_ignore: Seq::empty(),
                drag_window: None,
                font_ascent,
                font_descent,
            }),
    {
        broadcast use vstd::std_specs::hash::group_hash_axioms;

        WmState {
            screen_num,
            root,
            black_gc,
            windows: Vec::new(),
            pending_expose: HashSet::new(),
            wm_protocols,
            wm_delete_window,
            sequences_to_ignore: SequenceQueue::new(),
            drag_window: None,
            font_ascent,
            font_descent,
        }
    }

    /// The managed window whose client window or frame is `win`.
    pub fn find_window_by_id(&self, win: u32) -> (r: Option<&WindowState>)
        ensures
            r == (match find_window(self@.windows, win) {
                Some(s) => Some(&s),
                None => None,
            }),
    {
        match position_of(&self.windows, win) {
            Some(i) => Some(&self.windows[i]),
            None => None,
        }
    }

    /// The managed window whose client window or frame is `win`, to change
    /// in place.
    pub fn find_window_by_id_mut(&mut self, win: u32) -> (r: Option<&mut WindowState>)
        ensures
            match find_index(old(self)@.windows, win) {
                Some(i) => r matches Some(s) && *s == old(self)@.windows[i] && final(self)@ == (
                WmModel { windows: old(self)@.windows.update(i, *final(s)), ..old(self)@ }),
                None => r is None && final(self)@ == old(self)@,
            },
    {
        match position_of(&self.windows, win) {
            Some(i) => Some(&mut self.windows[i]),
            None => None,
        }
    }

    /// The requests that adopt client window `win` into the new frame
    /// `frame_win`: they create and map the frame around the client. The
    /// state is left as it is; once every request went out, `window_framed`
    /// records the window and `request_sent` the numbers to ignore.
    pub fn manage_window(&mut self, win: u32, frame_win: u32, geom: &Geometry) -> (reqs: Vec<Request>)
        requires
            manage_pre(old(self)@, win, *geom),
        ensures
            final(self)@ == old(self)@,
            reqs@ == on_manage(old(self)@, win, frame_win, *geom).1,
    {
        let reqs = vec![
            Request::CreateWindow {
                frame: frame_win,
                parent: self.root,
                x: geom.x,
                y: geom.y,
                width: geom.width,
                height: geom.height + TITLEBAR_HEIGHT,
                border_width: crate::protocol::FRAME_BORDER_WIDTH,
                event_mask: crate::protocol::FRAME_EVENT_MASK,
                background_pixel: crate::protocol::FRAME_BACKGROUND,
            },
            Request::GrabServer,
            Request::ChangeSaveSet { insert: true, window: win },
            Request::ReparentWindow {
                window: win,
                parent: frame_win,
                x: 0,
                y: TITLEBAR_HEIGHT as i16,
                ignore_events: true,
            },
            Request::MapWindow { window: win },
            Request::MapWindow { window: frame_win },
            Request::UngrabServer,
        ];
        assert(reqs@ =~= frame_requests(old(self)@.root, win, frame_win, *geom));
        reqs
    }

    /// Records client window `win`, now framed in `frame_win`, as managed.
    pub fn window_framed(&mut self, win: u32, frame_win: u32, geom: &Geometry)
        requires
            old(self).wf(),
        ensures
            final(self).wf(),
            final(self)@ == on_manage(old(self)@, win, frame_win, *geom).0,
    {
        self.windows.push(WindowState::new(win, frame_win, geom));
        assert(self@ =~= on_manage(old(self)@, win, frame_win, *geom).0);
    }

    /// Notes that `req` went out as request number `sequence`: when the
    /// events it causes are to be ignored, its number is queued.
    pub fn request_sent(&mut self, req: &Request, sequence: u64)
        requires
            old(self).wf(),
        ensures
            final(self).wf(),
            final(self)@ == on_request_sent(old(self)@, *req, sequence),
    {
        match req {
            Request::ReparentWindow { ignore_events: true, .. } => {
                self.ignore_sequence(sequence);
                assert(self@ =~= on_request_sent(old(self)@, *req, sequence));
            },
            _ => {},
        }
    }

    /// Records that the events caused by the request numbered `sequence`
    /// (as the connection counts) are to be ignored; the wire carries the
    /// low 16 bits of the number.
    pub fn ignore_sequence(&mut self, sequence: u64)
        requires
            old(self).wf(),
        ensures
            final(self).wf(),
            final(self)@ == (WmModel { sequences_to_ignore: final(self)@.sequences_to_ignore, ..old(self)@ }),
            final(self)@.sequences_to_ignore == insert_sorted(
                old(self)@.sequences_to_ignore,
                (sequence % 65536) as u16,
            ),
            final(self)@.sequences_to_ignore.to_multiset() == old(self)@.sequences_to_ignore.to_multiset().insert(
                (sequence % 65536) as u16,
            ),
    {
        let low = sequence as u16;
        assert(low == (sequence % 65536) as u16) by (bit_vector)
            requires low == sequence as u16;
        self.sequences_to_ignore.push(low);
    }

    /// A client window was unmapped: its records are dropped, and the
    /// returned requests give it back to the root and destroy its frame.
    pub fn handle_unmap_notify(&mut self, window: u32) -> (reqs: Vec<Request>)
        requires
            old(self).wf(),
        ensures
            final(self).wf(),
            final(self)@ == on_unmap_notify(old(self)@, window).0,
            reqs@ == on_unmap_notify(old(self)@, window).1,
    {
        let ghost ws = self.windows@;
        let mut kept: Vec<WindowState> = Vec::new();
        let mut reqs: Vec<Request> = Vec::new();
        let mut i: usize = 0;
        while i < self.windows.len()
            invariant
                self.windows@ == ws,
                0 <= i <= ws.len(),
                kept@ == retained(ws.take(i as int), window),
                reqs@ == unmap_requests(ws.take(i as int), window, self.root),
            decreases ws.len() - i,
        {
            let s = self.windows[i];
            proof {
                assert(ws.take(i + 1).drop_last() =~= ws.take(i as int));
                assert(ws.take(i + 1).last() == s);
            }
            if s.window != window {
                kept.push(s);
            } else {
                reqs.push(Request::ChangeSaveSet { insert: false, window: s.window });
                reqs.push(
                    Request::ReparentWindow {
                        window: s.window,
                        parent: self.root,
                        x: s.x,
                        y: s.y,
                        ignore_events: false,
                    },
                );
                reqs.push(Request::DestroyWindow { window: s.frame_window });
                assert(reqs@ =~= unmap_requests(ws.take(i as int), window, self.root) + release_requests(s, self.root));
            }
            i = i + 1;
        }
        assert(ws.take(ws.len() as int) =~= ws);
        self.windows = kept;
        assert(self@ =~= on_unmap_notify(old(self)@, window).0);
        reqs
    }

    /// A configure request of an unmanaged window is granted as asked.
    pub fn handle_configure_request(&mut self, req: &ConfigureRequest) -> (reqs: Vec<Request>)
        requires
            configure_request_pre(old(self)@, *req),
        ensures
            final(self)@ == old(self)@,
            reqs@ == on_configure_request(*req),
    {
        let changes = WindowChanges::from_configure_request(req);
        let reqs = vec![Request::ConfigureWindow { window: req.window, changes }];
        assert(reqs@ =~= on_configure_request(*req));
        reqs
    }

    /// An exposed window is queued for a titlebar redraw.
    pub fn handle_expose(&mut self, window: u32)
        requires
            old(self).wf(),
        ensures
            final(self).wf(),
            final(self)@ == on_expose(old(self)@, window),
    {
        broadcast use vstd::std_specs::hash::group_hash_axioms;

        self.pending_expose.insert(window);
        assert(self@ =~= on_expose(old(self)@, window));
    }

    /// Releasing the close key over a managed window asks its client to
    /// close it.
    pub fn handle_key_release(&self, detail: u8, child: u32) -> (reqs: Vec<Request>)
        ensures
            reqs@ == on_key_release(self@, detail, child),
    {
        let mut reqs: Vec<Request> = Vec::new();
        if detail == CLOSE_KEYCODE {
            if let Some(i) = position_of(&self.windows, child) {
                let s = self.windows[i];
                reqs.push(
                    Request::SendDeleteWindow {
                        window: s.window,
                        protocols: self.wm_protocols,
                        delete: self.wm_delete_window,
                    },
                );
            }
        }
        assert(reqs@ =~= on_key_release(self@, detail, child));
        reqs
    }

    /// A plain press of the drag button on a managed window focuses and
    /// raises it, and left of the close area starts dragging its frame.
    pub fn handle_button_press(&mut self, b: &ButtonEvent) -> (reqs: Vec<Request>)
        requires
            old(self).wf(),
            button_press_pre(old(self)@, *b),
        ensures
            final(self).wf(),
            final(self)@ == on_button_press(old(self)@, *b).0,
            reqs@ == on_button_press(old(self)@, *b).1,
    {
        let mut reqs: Vec<Request> = Vec::new();
        if b.detail != DRAG_BUTTON || b.state != 0 {
            assert(reqs@ =~= on_button_press(old(self)@, *b).1);
            return reqs;
        }
        if let Some(i) = position_of(&self.windows, b.event) {
            let s = self.windows[i];
            reqs.push(Request::SetInputFocus { window: s.window });
            reqs.push(
                Request::ConfigureWindow {
                    window: s.frame_window,
                    changes: WindowChanges {
                        x: None,
                        y: None,
                        width: None,
                        height: None,
                        border_width: None,
                        raise: true,
                    },
                },
            );
            if self.drag_window.is_none() && b.event_x < s.close_area() {
                let (x, y) = (-b.event_x, -b.event_y);
                self.drag_window = Some((s.frame_window, (x, y)));
            }
        }
        assert(reqs@ =~= on_button_press(old(self)@, *b).1);
        assert(self@ =~= on_button_press(old(self)@, *b).0);
        reqs
    }

    /// Releasing the drag button ends a drag; a release in the close area
    /// of a managed window asks its client to close it.
    pub fn handle_button_release(&mut self, b: &ButtonEvent) -> (reqs: Vec<Request>)
        requires
            old(self).wf(),
            button_release_pre(old(self)@, *b),
        ensures
            final(self).wf(),
            final(self)@ == on_button_release(old(self)@, *b).0,
            reqs@ == on_button_release(old(self)@, *b).1,
    {
        if b.detail == DRAG_BUTTON {
            self.drag_window = None;
        }
        let mut reqs: Vec<Request> = Vec::new();
        if let Some(i) = position_of(&self.windows, b.event) {
            let s = self.windows[i];
            if b.event_x >= s.close_area() {
                reqs.push(
                    Request::SendDeleteWindow {
                        window: s.window,
                        protocols: self.wm_protocols,
                        delete: self.wm_delete_window,
                    },
                );
            }
        }
        assert(reqs@ =~= on_button_release(old(self)@, *b).1);
        assert(self@ =~= on_button_release(old(self)@, *b).0);
        reqs
    }

    /// While a drag runs, the dragged frame follows the pointer.
    pub fn handle_motion_notify(&mut self, root_x: i16, root_y: i16) -> (reqs: Vec<Request>)
        requires
            motion_pre(old(self)@, root_x, root_y),
        ensures
            final(self)@ == old(self)@,
            reqs@ == on_motion_notify(old(self)@, root_x, root_y),
    {
        let mut reqs: Vec<Request> = Vec::new();
        if let Some((win, (x, y))) = self.drag_window {
            let (x, y) = (x + root_x, y + root_y);
            let (x, y) = (x as i32, y as i32);
            reqs.push(
                Request::ConfigureWindow {
                    window: win,
                    changes: WindowChanges {
                        x: Some(x),
                        y: Some(y),
                        width: None,
                        height: None,
                        border_width: None,
                        raise: false,
                    },
                },
            );
        }
        assert(reqs@ =~= on_motion_notify(old(self)@, root_x, root_y));
        reqs
    }

    /// Takes every queued exposure: the exposed ids are visited once each,
    /// in the set's iteration order, and the record of each one that is
    /// managed is returned, to have its titlebar redrawn.
    pub fn refresh(&mut self) -> (redraw: Vec<WindowState>)
        requires
            old(self).wf(),
        ensures
            final(self).wf(),
            final(self)@ == (WmModel { pending_expose: Set::empty(), ..old(self)@ }),
            exists|ids: Seq<u32>|
                {
                    &&& ids.no_duplicates()
                    &&& ids.to_set() == old(self)@.pending_expose
                    &&& redraw@ == redraw_list(ids, old(self)@.windows)
                },
            forall|w: u32|
                #[trigger] old(self)@.pending_expose.contains(w) && find_window(old(self)@.windows, w)
                    is Some ==> redraw@.contains(find_window(old(self)@.windows, w)->0),
    {
        broadcast use vstd::std_specs::hash::group_hash_axioms;

        let ghost all = vstd::std_specs::hash::spec_hash_keys_iter(&self.pending_expose).remaining().unref();
        let mut ids: Vec<u32> = Vec::new();
        for w in it: self.pending_expose.iter()
            invariant
                it.seq().unref() == all,
                ids@ == all.take(it.index()),
        {
            ids.push(*w);
            assert(ids@ =~= all.take(it.index() + 1));
        }
        assert(ids@ =~= all);
        self.pending_expose.clear();
        let ghost ws = self@.windows;
        let mut redraw: Vec<WindowState> = Vec::new();
        let mut i: usize = 0;
        while i < ids.len()
            invariant
                self@ == (WmModel { pending_expose: Set::empty(), ..old(self)@ }),
                ws == old(self)@.windows,
                0 <= i <= ids@.len(),
                redraw@ == redraw_list(ids@.take(i as int), ws),
            decreases ids@.len() - i,
        {
            proof {
                assert(ids@.take(i + 1).drop_last() =~= ids@.take(i as int));
            }
            if let Some(j) = position_of(&self.windows, ids[i]) {
                redraw.push(self.windows[j]);
            }
            i = i + 1;
        }
        assert(ids@.take(ids@.len() as int) =~= ids@);
        proof {
            law_exposed_windows_redrawn(ids@, ws);
            assert forall|w: u32| #[trigger] old(self)@.pending_expose.contains(w) implies ids@.contains(w) by {
                assert(ids@.to_set().contains(w));
            }
        }
        redraw
    }

    /// Windows found at start that are to be adopted, in order, with their
    /// geometry: those whose attributes and geometry are known, that do
    /// not bypass the manager, and that are mapped.
    pub fn scan_windows(&self, scanned: &Vec<ScannedWindow>) -> (adopt: Vec<(u32, Geometry)>)
        ensures
            adopt@ == adopted(scanned@),
    {
        let mut adopt: Vec<(u32, Geometry)> = Vec::new();
        let mut i: usize = 0;
        while i < scanned.len()
            invariant
                0 <= i <= scanned@.len(),
                adopt@ == adopted(scanned@.take(i as int)),
            decreases scanned@.len() - i,
        {
            let sw = scanned[i];
            proof {
                assert(scanned@.take(i + 1).drop_last() =~= scanned@.take(i as int));
            }
            match (sw.attributes, sw.geometry) {
                (Some(attr), Some(geom)) => {
                    if !attr.override_redirect && attr.map_state != MAP_STATE_UNMAPPED {
                        adopt.push((sw.window, geom));
                    }
                },
                _ => {},
            }
            i = i + 1;
        }
        assert(scanned@.take(scanned@.len() as int) =~= scanned@);
        adopt
    }

    /// Grabs `keycode` with `modifiers` on `window`.
    pub fn grab_keycode(&self, window: u32, modifiers: u16, keycode: u8) -> (r: Request)
        ensures
            r == (Request::GrabKey { window, modifiers, keycode }),
    {
        Request::GrabKey { window, modifiers, keycode }
    }

    /// The grabs of the close key on the root window.
    pub fn close_key_grabs(&self) -> (reqs: Vec<Request>)
        ensures
            reqs@ == close_key_grab_requests(self.root),
    {
        let reqs = vec![
            self.grab_keycode(self.root, MOD1_MASK, CLOSE_KEYCODE),
            self.grab_keycode(self.root, LOCK_MASK | MOD1_MASK, CLOSE_KEYCODE),
            self.grab_keycode(self.root, MOD2_MASK | LOCK_MASK | MOD1_MASK, CLOSE_KEYCODE),
        ];
        assert(reqs@ =~= close_key_grab_requests(self.root));
        reqs
    }

    /// Height of a titlebar: the font's ascent and descent with `SPACE`
    /// above and below and one pixel more on each side.
    pub fn bar_height(&self) -> (h: i32)
        ensures
            h == bar_height_of(self.font_ascent, self.font_descent),
    {
        self.font_ascent as i32 + self.font_descent as i32 + 2 * SPACE + 2
    }

    /// How to draw the titlebar of `state`: the close button's cross near
    /// the right end, and the client's name at the left, `SPACE` pixels in.
    pub fn redraw_titlebar(&self, state: &WindowState) -> (d: TitlebarDrawing)
        requires
            self.font_ascent + SPACE <= i16::MAX,
        ensures
            d.window == state.window,
            d.frame == state.frame_window,
            d.gc == self.black_gc,
            d.first_stroke@ == first_stroke(
                cross_origin(state.width, bar_height_of(self.font_ascent, self.font_descent)),
            ),
            d.second_stroke@ == second_stroke(
                cross_origin(state.width, bar_height_of(self.font_ascent, self.font_descent)),
            ),
            d.text_x == SPACE,
            d.text_y == SPACE + self.font_ascent,
    {
        let x = state.width as i32 - (self.bar_height() / 2) - 10;
        let topleft_offset = (self.bar_height() / 2) - 5;
        let first = vec![
            Point { x: (x + topleft_offset + 1) as i16, y: topleft_offset as i16 },
            Point { x: (x + topleft_offset + 8) as i16, y: (topleft_offset + 7) as i16 },
            Point { x: (x + topleft_offset + 1) as i16, y: (topleft_offset + 1) as i16 },
            Point { x: (x + topleft_offset + 7) as i16, y: (topleft_offset + 7) as i16 },
            Point { x: (x + topleft_offset) as i16, y: (topleft_offset + 1) as i16 },
            Point { x: (x + topleft_offset + 7) as i16, y: (topleft_offset + 8) as i16 },
        ];
        let second = vec![
            Point { x: (x + topleft_offset) as i16, y: (topleft_offset + 7) as i16 },
            Point { x: (x + topleft_offset + 7) as i16, y: topleft_offset as i16 },
            Point { x: (x + topleft_offset + 1) as i16, y: (topleft_offset + 7) as i16 },
            Point { x: (x + topleft_offset + 7) as i16, y: (topleft_offset + 1) as i16 },
            Point { x: (x + topleft_offset + 1) as i16, y: (topleft_offset + 8) as i16 },
            Point { x: (x + topleft_offset + 8) as i16, y: (topleft_offset + 1) as i16 },
        ];
        let ghost o = cross_origin(state.width, bar_height_of(self.font_ascent, self.font_descent));
        assert(first@ =~= first_stroke(o));
        assert(second@ =~= second_stroke(o));
        TitlebarDrawing {
            window: state.window,
            frame: state.frame_window,
            gc: self.black_gc,
            first_stroke: first,
            second_stroke: second,
            text_x: SPACE as i16,
            text_y: SPACE as i16 + self.font_ascent,
        }
    }

    /// Whether `handle_event` is defined on `event`: it is, unless the
    /// event is handled (not ignored) and is a configure request of a
    /// managed window, a button event whose close-area check or drag offset
    /// cannot be computed, or a motion whose new frame position leaves the
    /// `i16` range.
    pub fn accepts_event(&self, event: &Event) -> (ok: bool)
        requires
            self.wf(),
        ensures
            ok == step_pre(self@, *event),
    {
        let ignored = match event.sequence {
            Some(n) => self.sequences_to_ignore.would_ignore(n),
            None => false,
        };
        if ignored {
            return true;
        }
        match event.kind {
            EventKind::ConfigureRequest(req) => position_of(&self.windows, req.window).is_none(),
            EventKind::ButtonPress(b) => {
                if b.detail == DRAG_BUTTON && b.state == 0 && self.drag_window.is_none() {
                    match position_of(&self.windows, b.event) {
                        Some(i) => {
                            let s = self.windows[i];
                            s.width >= TITLEBAR_HEIGHT && (!(b.event_x < s.close_area()) || (
                            b.event_x != i16::MIN && b.event_y != i16::MIN))
                        },
                        None => true,
                    }
                } else {
                    true
                }
            },
            EventKind::ButtonRelease(b) => match position_of(&self.windows, b.event) {
                Some(i) => self.windows[i].width >= TITLEBAR_HEIGHT,
                None => true,
            },
            EventKind::MotionNotify { root_x, root_y } => match self.drag_window {
                Some((_, (x, y))) => {
                    let nx = x as i32 + root_x as i32;
                    let ny = y as i32 + root_y as i32;
                    i16::MIN as i32 <= nx && nx <= i16::MAX as i32 && i16::MIN as i32 <= ny && ny
                        <= i16::MAX as i32
                },
                None => true,
            },
            _ => true,
        }
    }

    /// Handles one event: an event caused by one of the manager's own
    /// requests (see `ignore_sequence`) is ignored; any other is handled
    /// according to its kind.
    pub fn handle_event(&mut self, event: &Event) -> (action: Action)
        requires
            old(self).wf(),
            step_pre(old(self)@, *event),
        ensures
            final(self).wf(),
            final(self)@ == step(old(self)@, *event).0,
            action@ == step(old(self)@, *event).1,
    {
        let mut should_ignore = false;
        if let Some(seqno) = event.sequence {
            should_ignore = self.sequences_to_ignore.check(seqno);
        }
        assert(self@ =~= crate::model::after_sequence(old(self)@, event.sequence).0);
        if should_ignore {
            return Action::Ignored;
        }
        match event.kind {
            EventKind::UnmapNotify { window } => Action::Requests(self.handle_unmap_notify(window)),
            EventKind::ConfigureRequest(req) => Action::Requests(self.handle_configure_request(&req)),
            EventKind::MapRequest { window } => Action::Manage(window),
            EventKind::Expose { window } => {
                self.handle_expose(window);
                Action::Requests(Vec::new())
            },
            EventKind::ButtonPress(b) => Action::Requests(self.handle_button_press(&b)),
            EventKind::ButtonRelease(b) => Action::Requests(self.handle_button_release(&b)),
            EventKind::MotionNotify { root_x, root_y } => Action::Requests(
                self.handle_motion_notify(root_x, root_y),
            ),
            EventKind::KeyRelease { detail, child } => Action::Requests(
                self.handle_key_release(detail, child),
            ),
            EventKind::Other => Action::Requests(Vec::new()),
        }
    }
}

} // verus!
