use vstd::prelude::*;

verus! {

/// Height in pixels of the titlebar drawn above every managed window.
pub const TITLEBAR_HEIGHT: u16 = 20;

/// The part of a window's geometry that the manager reads.
#[derive(Clone, Copy, Debug, PartialEq, Eq)]
pub struct Geometry {
    pub x: i16,
    pub y: i16,
    pub width: u16,
    pub height: u16,
}

/// A managed client window together with the frame it was reparented into.
#[derive(Clone, Copy, Debug, PartialEq, Eq)]
pub struct WindowState {
    pub window: u32,
    pub frame_window: u32,
    pub x: i16,
    pub y: i16,
    pub width: u16,
}

/// `v` wrapped into the range of an `i16`, as a two's-complement cast does.
pub open spec fn wrap_i16(v: int) -> int {
    let m = ((v + 32768) % 65536) - 32768;
    m
}

/// Start of the close area of a window's titlebar: every titlebar x
/// coordinate at or beyond it belongs to the close button.
pub open spec fn close_area_of(width: u16) -> i16 {
    wrap_i16(width - TITLEBAR_HEIGHT) as i16
}

impl WindowState {
    pub fn new(window: u32, frame_window: u32, geom: &Geometry) -> (r: WindowState)
        ensures
            r == (WindowState {
                window,
                frame_window,
                x: geom.x,
                y: geom.y,
                width: geom.width,
            }),
    {
        WindowState { window, frame_window, x: geom.x, y: geom.y, width: geom.width }
    }

    /// The close area starts where the titlebar's last `TITLEBAR_HEIGHT`
    /// pixels begin; widths above 32787 wrap as the `i16` cast does.
    pub fn close_area(&self) -> (r: i16)
        requires
            self.width >= TITLEBAR_HEIGHT,
        ensures
            r == close_area_of(self.width),
    {
        let d: u16 = self.width - TITLEBAR_HEIGHT;
        let r = d as i16;
        assert(r == wrap_i16(d as int)) by (bit_vector)
            requires r == d as i16;
        r
    }
}

/// `s` is the record of `id`: the client window or its frame.
pub open spec fn matches_id(s: WindowState, id: u32) -> bool {
    s.window == id || s.frame_window == id
}

/// `i` is the first position in `ws` whose record matches `id`.
pub open spec fn is_first_match(ws: Seq<WindowState>, id: u32, i: int) -> bool {
    &&& 0 <= i < ws.len()
    &&& matches_id(ws[i], id)
    &&& forall|j: int| 0 <= j < i ==> !matches_id(#[trigger] ws[j], id)
}

/// Position of the first record in `ws` that matches `id`, if any.
pub open spec fn find_index(ws: Seq<WindowState>, id: u32) -> Option<int>
    decreases ws.len(),
{
    if ws.len() == 0 {
        None
    } else if matches_id(ws[0], id) {
        Some(0)
    } else {
        match find_index(ws.drop_first(), id) {
            Some(i) => Some(i + 1),
            None => None,
        }
    }
}

/// The first record in `ws` that matches `id`, if any.
pub open spec fn find_window(ws: Seq<WindowState>, id: u32) -> Option<WindowState> {
    match find_index(ws, id) {
        Some(i) => Some(ws[i]),
        None => None,
    }
}

/// There is only one first match.
pub proof fn lemma_first_match_unique(ws: Seq<WindowState>, id: u32, i: int, j: int)
    requires
        is_first_match(ws, id, i),
        is_first_match(ws, id, j),
    ensures
        i == j,
{
    if i < j {
        assert(!matches_id(ws[i], id));
    } else if j < i {
        assert(!matches_id(ws[j], id));
    }
}

/// `find_index` is the first match whenever there is one, and `None`
/// exactly when no record matches.
pub proof fn lemma_find_index(ws: Seq<WindowState>, id: u32)
    ensures
        find_index(ws, id) matches Some(i) ==> is_first_match(ws, id, i),
        find_index(ws, id) is None <==> forall|j: int| 0 <= j < ws.len() ==> !matches_id(#[trigger] ws[j], id),
    decreases ws.len(),
{
    if ws.len() > 0 && !matches_id(ws[0], id) {
        let u = ws.drop_first();
        lemma_find_index(u, id);
        assert forall|j: int| 0 <= j < u.len() implies #[trigger] u[j] == ws[j + 1] by {}
        if let Some(i) = find_index(u, id) {
            assert forall|j: int| 0 <= j < i + 1 implies !matches_id(#[trigger] ws[j], id) by {
                if j > 0 {
                    assert(ws[j] == u[j - 1]);
                }
            }
        } else {
            assert forall|j: int| 0 <= j < ws.len() implies !matches_id(#[trigger] ws[j], id) by {
                if j > 0 {
                    assert(ws[j] == u[j - 1]);
                }
            }
        }
    }
}

/// The first match is where `find_index` points.
pub proof fn lemma_find_index_at(ws: Seq<WindowState>, id: u32, i: int)
    requires
        is_first_match(ws, id, i),
    ensures
        find_index(ws, id) == Some(i),
{
    lemma_find_index(ws, id);
    assert(!(find_index(ws, id) is None));
    let k = find_index(ws, id)->0;
    lemma_first_match_unique(ws, id, i, k);
}

/// Position in `windows` of the first record of `id`, the client window or
/// its frame.
pub fn position_of(windows: &Vec<WindowState>, id: u32) -> (r: Option<usize>)
    ensures
        match r {
            Some(i) => find_index(windows@, id) == Some(i as int) && is_first_match(
                windows@,
                id,
                i as int,
            ),
            None => find_index(windows@, id) is None,
        },
{
    let mut i: usize = 0;
    while i < windows.len()
        invariant
            0 <= i <= windows@.len(),
            forall|j: int| 0 <= j < i ==> !matches_id(#[trigger] windows@[j], id),
        decreases windows@.len() - i,
    {
        if windows[i].window == id || windows[i].frame_window == id {
            proof {
                lemma_find_index_at(windows@, id, i as int);
            }
            return Some(i);
        }
        i = i + 1;
    }
    proof {
        lemma_find_index(windows@, id);
    }
    None
}

} // verus!
