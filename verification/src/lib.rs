//! Core of a collaborative plain-text editor: a replicated text document
//! that converges under concurrent edits, a snapshot diff engine, cursor
//! preservation across remote patches, rooms with broadcast fan-out, a
//! session registry, and the synchronization protocol that ties them together.

pub mod cursor;
pub mod diff;
pub mod doc;
pub mod laws;
pub mod markdown;
pub mod protocol;
pub mod registry;
pub mod room;
pub mod text;
pub mod toolbar;
