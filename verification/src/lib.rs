//! View/backend synchronization core of a game-archive editor.
//!
//! A single backend owner holds the one authoritative in-memory archive.
//! The presentation side never touches it directly: every access travels as
//! a typed command over the command bus, is handled strictly one at a time,
//! and yields exactly one response. Each open entry is mirrored on the
//! presentation side by a view holding a transient decoded snapshot, and
//! edits flow back through an explicit save that commits atomically.

pub mod app_ui;
pub mod assoc;
pub mod communications;
pub mod decoded;
pub mod errors;
pub mod packedfile_views;
pub mod settings;
