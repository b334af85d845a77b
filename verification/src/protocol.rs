use vstd::prelude::*;

use crate::window::Geometry;

verus! {

/// Mouse button that moves a window when its titlebar is dragged.
pub const DRAG_BUTTON: u8 = 1;

/// Keycode that, held with the grabbed modifiers, closes a window.
pub const CLOSE_KEYCODE: u8 = 24;

/// Padding in pixels around the title text.
pub const SPACE: i32 = 3;

/// Background pixel value of the frames.
pub const FRAME_BACKGROUND: u32 = 16776960;

/// Border width in pixels of the frames.
pub const FRAME_BORDER_WIDTH: u16 = 1;

/// X11 core protocol event mask bits.
pub const KEY_PRESS_MASK: u32 = 1;
pub const KEY_RELEASE_MASK: u32 = 2;
pub const BUTTON_PRESS_MASK: u32 = 4;
pub const BUTTON_RELEASE_MASK: u32 = 8;
pub const ENTER_WINDOW_MASK: u32 = 16;
pub const POINTER_MOTION_MASK: u32 = 64;
pub const EXPOSURE_MASK: u32 = 32768;
pub const SUBSTRUCTURE_NOTIFY_MASK: u32 = 524288;
pub const SUBSTRUCTURE_REDIRECT_MASK: u32 = 1048576;

/// Events the frames listen to: exposure, substructure changes, button
/// presses and releases, pointer motion, entering, key presses and releases.
pub const FRAME_EVENT_MASK: u32 = EXPOSURE_MASK | SUBSTRUCTURE_NOTIFY_MASK | BUTTON_PRESS_MASK
    | BUTTON_RELEASE_MASK | POINTER_MOTION_MASK | ENTER_WINDOW_MASK | KEY_PRESS_MASK
    | KEY_RELEASE_MASK;

/// Events the root window is asked for, so that the manager gets to decide
/// where top-level windows go.
pub const ROOT_EVENT_MASK: u32 = SUBSTRUCTURE_REDIRECT_MASK | SUBSTRUCTURE_NOTIFY_MASK;

/// X11 core protocol `ConfigWindow` bits of a configure request's value mask.
pub const CONFIG_X: u16 = 1;
pub const CONFIG_Y: u16 = 2;
pub const CONFIG_WIDTH: u16 = 4;
pub const CONFIG_HEIGHT: u16 = 8;
pub const CONFIG_BORDER_WIDTH: u16 = 16;

/// X11 core protocol key-and-button mask bits.
pub const LOCK_MASK: u16 = 2;
pub const MOD1_MASK: u16 = 8;
pub const MOD2_MASK: u16 = 16;

/// X11 core protocol map state of a window that is not mapped.
pub const MAP_STATE_UNMAPPED: u8 = 0;

/// A point of a drawing, in the coordinates of the drawable.
#[derive(Clone, Copy, Debug, PartialEq, Eq)]
pub struct Point {
    pub x: i16,
    pub y: i16,
}

/// A client's request to change the geometry of one of its windows.
#[derive(Clone, Copy, Debug, PartialEq, Eq)]
pub struct ConfigureRequest {
    pub window: u32,
    pub x: i16,
    pub y: i16,
    pub width: u16,
    pub height: u16,
    pub border_width: u16,
    /// Which of the fields above the client asks for (`CONFIG_*` bits).
    pub value_mask: u16,
}

/// The changes of a window configuration: each field that is `Some` is
/// changed; `raise` puts the window above its siblings.
#[derive(Clone, Copy, Debug, PartialEq, Eq)]
pub struct WindowChanges {
    pub x: Option<i32>,
    pub y: Option<i32>,
    pub width: Option<u32>,
    pub height: Option<u32>,
    pub border_width: Option<u32>,
    pub raise: bool,
}

/// A button press or release.
#[derive(Clone, Copy, Debug, PartialEq, Eq)]
pub struct ButtonEvent {
    /// The button.
    pub detail: u8,
    /// The modifier and button state before the event.
    pub state: u16,
    /// The window the event was reported on.
    pub event: u32,
    pub event_x: i16,
    pub event_y: i16,
}

/// What an X event reports, as far as the manager looks at it.
#[derive(Clone, Copy, Debug, PartialEq, Eq)]
pub enum EventKind {
    UnmapNotify { window: u32 },
    ConfigureRequest(ConfigureRequest),
    MapRequest { window: u32 },
    Expose { window: u32 },
    ButtonPress(ButtonEvent),
    ButtonRelease(ButtonEvent),
    MotionNotify { root_x: i16, root_y: i16 },
    KeyRelease { detail: u8, child: u32 },
    Other,
}

/// An X event with the sequence number it carries on the wire, if any.
#[derive(Clone, Copy, Debug, PartialEq, Eq)]
pub struct Event {
    pub sequence: Option<u16>,
    pub kind: EventKind,
}

/// What the manager learns of a window when it scans the screen at start.
#[derive(Clone, Copy, Debug, PartialEq, Eq)]
pub struct WindowAttributes {
    pub override_redirect: bool,
    pub map_state: u8,
}

/// A top-level window found at start, with its attributes and geometry if
/// the server could report them.
#[derive(Clone, Copy, Debug, PartialEq, Eq)]
pub struct ScannedWindow {
    pub window: u32,
    pub attributes: Option<WindowAttributes>,
    pub geometry: Option<Geometry>,
}

/// A request to the X server.
#[derive(Clone, Copy, Debug, PartialEq, Eq)]
pub enum Request {
    /// Create an input-output window `frame` as a child of `parent`, with a
    /// visual and depth copied from the parent.
    CreateWindow {
        frame: u32,
        parent: u32,
        x: i16,
        y: i16,
        width: u16,
        height: u16,
        border_width: u16,
        event_mask: u32,
        background_pixel: u32,
    },
    GrabServer,
    UngrabServer,
    /// Add `window` to the save set (`insert`) or delete it from there.
    ChangeSaveSet { insert: bool, window: u32 },
    /// Reparent `window` into `parent` at (`x`, `y`); when `ignore_events`
    /// holds, the events that this request causes are to be ignored, so its
    /// sequence number goes to `WmState::ignore_sequence`.
    ReparentWindow { window: u32, parent: u32, x: i16, y: i16, ignore_events: bool },
    MapWindow { window: u32 },
    DestroyWindow { window: u32 },
    ConfigureWindow { window: u32, changes: WindowChanges },
    /// Focus `window`, reverting to its parent, as of the current time.
    SetInputFocus { window: u32 },
    /// Ask the client owning `window` to close it: a `protocols` client
    /// message, format 32, holding `delete` and four zeros.
    SendDeleteWindow { window: u32, protocols: u32, delete: u32 },
    /// Grab `keycode` with `modifiers` on `window`, reporting to the
    /// owner, with asynchronous pointer and keyboard.
    GrabKey { window: u32, modifiers: u16, keycode: u8 },
}

/// What the manager does with an event.
#[derive(Debug, PartialEq, Eq)]
pub enum Action {
    /// The event results from one of the manager's own requests and is dropped.
    Ignored,
    /// Send these requests, in this order.
    Requests(Vec<Request>),
    /// A client asks to map this window: fetch its geometry, then call
    /// `WmState::manage_window`.
    Manage(u32),
}

/// The mathematical value of an `Action`.
#[verifier::ext_equal]
pub enum ActionModel {
    Ignored,
    Requests(Seq<Request>),
    Manage(u32),
}

impl View for Action {
    type V = ActionModel;

    open spec fn view(&self) -> ActionModel {
        match self {
            Action::Ignored => ActionModel::Ignored,
            Action::Requests(v) => ActionModel::Requests(v@),
            Action::Manage(w) => ActionModel::Manage(*w),
        }
    }
}

/// The changes that a configure request asks for: each field whose bit is
/// set in the value mask, and nothing else.
pub open spec fn requested_changes(req: ConfigureRequest) -> WindowChanges {
    WindowChanges {
        x: if req.value_mask & CONFIG_X != 0 { Some(req.x as i32) } else { None },
        y: if req.value_mask & CONFIG_Y != 0 { Some(req.y as i32) } else { None },
        width: if req.value_mask & CONFIG_WIDTH != 0 { Some(req.width as u32) } else { None },
        height: if req.value_mask & CONFIG_HEIGHT != 0 { Some(req.height as u32) } else { None },
        border_width: if req.value_mask & CONFIG_BORDER_WIDTH != 0 {
            Some(req.border_width as u32)
        } else {
            None
        },
        raise: false,
    }
}

impl WindowChanges {
    /// The changes that `req` asks for, with no sibling and no stacking
    /// change.
    pub fn from_configure_request(req: &ConfigureRequest) -> (r: WindowChanges)
        ensures
            r == requested_changes(*req),
    {
        WindowChanges {
            x: if req.value_mask & CONFIG_X != 0 { Some(req.x as i32) } else { None },
            y: if req.value_mask & CONFIG_Y != 0 { Some(req.y as i32) } else { None },
            width: if req.value_mask & CONFIG_WIDTH != 0 { Some(req.width as u32) } else { None },
            height: if req.value_mask & CONFIG_HEIGHT != 0 { Some(req.height as u32) } else { None },
            border_width: if req.value_mask & CONFIG_BORDER_WIDTH != 0 {
                Some(req.border_width as u32)
            } else {
                None
            },
            raise: false,
        }
    }
}

} // verus!
