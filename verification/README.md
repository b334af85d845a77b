# owm

A small reparenting window manager for X11. Every managed window gets a
frame with a titlebar; dragging the titlebar moves the window, and clicking
the cross at its right end (or releasing the close key, keycode 24, with Alt held over it) asks the client to
close the window.

- `src/` is the verified library (Verus). `wm.rs` holds the manager's
  state and its event handlers, each proved against the state machine in
  `model.rs`; `sequence_queue.rs` is the queue of sequence numbers whose
  events are ignored; `window.rs` the managed-window records and their
  lookup; `titlebar.rs` the titlebar drawing; `protocol.rs` the events and
  requests exchanged with the caller; `laws.rs` the properties that span
  several operations.
- `app/` is the program: it connects to the X server with `x11rb`, turns
  X events into library events, and sends the requests the library returns.
- `tests/` runs the library on concrete scenarios.
