//! Composition events as reported by the windowing layer.

use vstd::prelude::*;

verus! {

/// One composition event from the windowing layer.
///
/// A `Preedit` carries the in-progress candidate string and whether the
/// windowing layer reported a composition cursor for it; a preedit without a
/// cursor is ignored by every field.  A `Commit` finalizes text into the
/// field's committed content.  `Enabled` and `Disabled` track IME activation.
pub enum ImeEvent {
    Preedit { value: String, has_cursor: bool },
    Commit { value: String },
    Enabled,
    Disabled,
}

/// The mathematical form of an [`ImeEvent`]: strings as character sequences.
pub enum ImeEventV {
    Preedit { value: Seq<char>, has_cursor: bool },
    Commit { value: Seq<char> },
    Enabled,
    Disabled,
}

impl View for ImeEvent {
    type V = ImeEventV;

    open spec fn view(&self) -> ImeEventV {
        match self {
            ImeEvent::Preedit { value, has_cursor } => ImeEventV::Preedit {
                value: value@,
                has_cursor: *has_cursor,
            },
            ImeEvent::Commit { value } => ImeEventV::Commit { value: value@ },
            ImeEvent::Enabled => ImeEventV::Enabled,
            ImeEvent::Disabled => ImeEventV::Disabled,
        }
    }
}

} // verus!
