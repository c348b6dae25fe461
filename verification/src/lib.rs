//! Composition management for IME (input method editor) text entry in an
//! immediate-mode GUI.
//!
//! IME input delivers text as a stream of events: an in-progress "preedit"
//! candidate string, followed by a "commit" of the chosen text.  This crate
//! keeps one composition state per text field and splices that event stream
//! into the field's committed text, all in character units so that multi-byte
//! text stays correct.  A per-frame registry multiplexes the states across an
//! unbounded, changing set of fields drawn each frame, keyed by draw order.
//!
//! The GUI widget itself (rendering, focus, caret) is an external collaborator:
//! the library computes what to display and what to do with the widget's
//! report, and the host performs the actual draw call between `begin_edit`
//! and `finish_edit`.

pub mod event;
pub mod field;
pub mod layout;
pub mod registry;
pub mod splice;
