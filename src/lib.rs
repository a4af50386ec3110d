//! A terminal chat front end: a raw-mode line editor, a bounded message
//! region above a fixed input box, a session controller that drives both from
//! key events, a user registry, and a per-host identity hash.
//!
//! Everything here is pure logic. Terminal I/O is described by [`screen::Draw`]
//! operations that the caller performs.

pub mod display;
pub mod editor;
pub mod identity;
pub mod registry;
pub mod screen;
pub mod session;
pub mod text;
