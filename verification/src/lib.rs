//! Core logic of a terminal serial-port monitor: the lifecycle state machine
//! of the background I/O worker, the time-windowed coalescing of received
//! bytes into history records, the cursor-addressed numeric decoding used by
//! the analyzer view, and the display encodings of recorded bytes.
//!
//! All I/O (the serial handle itself, channels, the terminal) lives outside
//! this crate; the functions here turn states, commands and I/O outcomes into
//! new states and emitted events, and are verified to do exactly that.

pub mod analyzer_mode;
pub mod display;
pub mod interactive_mode;
pub mod mode;
pub mod portthread;
pub mod serialtypes;
pub mod settings_mode;
