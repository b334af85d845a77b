//! Decision logic of a small reparenting X11 window manager.
//!
//! The library holds the window manager's state and turns X events into
//! the requests that the manager sends back to the X server. Talking to the
//! server is left to the caller.

pub mod handler_laws;
pub mod laws;
pub mod model;
pub mod protocol;
pub mod sequence_queue;
pub mod titlebar;
pub mod window;
pub mod wm;
