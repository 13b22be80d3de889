//! State engine of a terminal dashboard: list cursors, sliding signal
//! windows, ring buffers and the key/tick dispatch that ties them together.
//! Everything that touches the terminal, the filesystem or the desktop shell
//! is left to the caller, which performs the [`controller::Action`]s the
//! engine hands out and reports their outcomes back.

pub mod cursor;
pub mod selection;
pub mod tabs;
pub mod ring;
pub mod signal;
pub mod task;
pub mod path;
pub mod controller;
