//! The core of a bridge between a serial pendant and the keyboard of a host.
//!
//! Lines arriving from the pendant are turned into ordered keyboard events,
//! and keys pressed at the local terminal drive a two-mode session. Nothing
//! here touches a device: every function maps plain values to plain values,
//! so the program around the library only reads, writes and replays what it
//! is given.
//!
//! - [`keys`]: keyboard events and the primitives that emit them.
//! - [`grammar`]: which lines are jog commands, and what they say.
//! - [`magnitude`]: signed decimal numbers, read exactly.
//! - [`chord`]: from a jog command to its key chord.
//! - [`session`]: the session state and its steps.
//! - [`history`]: what holds of a session over its whole history.
//! - [`status`]: what the status display shows of a session.
//! - [`text`]: the text operations the rest relies on.

pub mod chord;
pub mod grammar;
pub mod history;
pub mod keys;
pub mod magnitude;
pub mod session;
pub mod status;
pub mod text;
