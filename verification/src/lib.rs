//! Keyboard input encoding for a terminal emulator.
//!
//! Given a key event (logical key, physical location, press/release/repeat
//! state, optional literal text), a snapshot of the held modifiers and a
//! snapshot of the negotiated terminal modes, the library decides whether an
//! escape sequence must be written to the pseudo-terminal and, if so, builds
//! the exact byte sequence. When no sequence is required the caller forwards
//! the event's literal text unchanged.
//!
//! The byte sequences follow the long-standing xterm conventions, and, once
//! the application opts in through the progressive enhancement flags of the
//! kitty keyboard protocol, the parameterized `CSI u` forms and the extended
//! numeric key codes that protocol assigns.

pub mod encoder;
pub mod keys;
pub mod laws;
