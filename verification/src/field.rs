//! Per-field composition state: the event state machine, the displayed text,
//! and the decisions taken when the widget's per-frame report comes back.

use vstd::prelude::*;

use crate::event::{ImeEvent, ImeEventV};
use crate::splice::{spliced, splice_at};

verus! {

/// Composition state of one text field.
///
/// `text` is the committed text (confirmed characters only, never preedit
/// content); `cursor_index` is a character offset into it.  `ime_string` is
/// the in-progress preedit, empty when no composition is active, and
/// `ime_string_index` its character count, kept after a commit clears the
/// preedit so the cursor can be advanced past the inserted text.
pub struct ImeText {
    /// Identity assigned by the host widget on first draw; used only for
    /// out-of-band text injection.
    pub id: String,
    /// The committed text.
    pub text: String,
    /// The in-progress preedit string.
    pub ime_string: String,
    /// Character count of the preedit, measured when it was last updated.
    pub ime_string_index: usize,
    /// Character offset of the insertion point into `text`.
    pub cursor_index: usize,
    /// A commit arrived and must still be reported as a change.
    pub is_ime_input: bool,
    /// Whether the widget reported focus on the last draw.
    pub is_focus: bool,
    /// Whether the windowing layer reported IME as enabled.
    pub is_ime: bool,
    /// One-shot, cleared by an empty commit: whether the cursor advances past
    /// committed text on the next draw.
    pub is_cursor_move: bool,
    /// Whether the field wraps lines.
    pub multiline: bool,
    /// Whether the field was drawn this frame; the sole criterion for reclaim.
    pub is_used: bool,
}

/// The mathematical form of an [`ImeText`]: strings as character sequences.
#[verifier::ext_equal]
pub struct ImeTextV {
    pub id: Seq<char>,
    pub text: Seq<char>,
    pub ime_string: Seq<char>,
    pub ime_string_index: usize,
    pub cursor_index: usize,
    pub is_ime_input: bool,
    pub is_focus: bool,
    pub is_ime: bool,
    pub is_cursor_move: bool,
    pub multiline: bool,
    pub is_used: bool,
}

impl View for ImeText {
    type V = ImeTextV;

    open spec fn view(&self) -> ImeTextV {
        ImeTextV {
            id: self.id@,
            text: self.text@,
            ime_string: self.ime_string@,
            ime_string_index: self.ime_string_index,
            cursor_index: self.cursor_index,
            is_ime_input: self.is_ime_input,
            is_focus: self.is_focus,
            is_ime: self.is_ime,
            is_cursor_move: self.is_cursor_move,
            multiline: self.multiline,
            is_used: self.is_used,
        }
    }
}

impl ImeTextV {
    /// A freshly created field state: everything empty, single-line, cursor
    /// movement armed.
    pub open spec fn init() -> ImeTextV {
        ImeTextV {
            id: Seq::empty(),
            text: Seq::empty(),
            ime_string: Seq::empty(),
            ime_string_index: 0,
            cursor_index: 0,
            is_ime_input: false,
            is_focus: false,
            is_ime: false,
            is_cursor_move: true,
            multiline: false,
            is_used: false,
        }
    }

    /// While a composition is in progress, `ime_string_index` is the character
    /// count of the preedit.
    pub open spec fn wf(self) -> bool {
        self.ime_string.len() > 0 ==> self.ime_string_index as nat == self.ime_string.len()
    }
}

/// The state after one event.  An unfocused field ignores every event.  A
/// preedit without a cursor is ignored.  A commit splices its value into the
/// committed text at the cursor, clears the preedit (keeping its measured
/// length), flags the pending commit, and, when the value is empty, disarms
/// the one-shot cursor advance.
pub open spec fn event_applied(pre: ImeTextV, event: ImeEventV) -> ImeTextV {
    if !pre.is_focus {
        pre
    } else {
        match event {
            ImeEventV::Preedit { value, has_cursor } => if has_cursor {
                ImeTextV { ime_string: value, ime_string_index: value.len() as usize, ..pre }
            } else {
                pre
            },
            ImeEventV::Commit { value } => ImeTextV {
                text: spliced(pre.text, value, pre.cursor_index as nat),
                ime_string: Seq::empty(),
                is_ime_input: true,
                is_cursor_move: if value.len() == 0 {
                    false
                } else {
                    pre.is_cursor_move
                },
                ..pre
            },
            ImeEventV::Enabled => ImeTextV { is_ime: true, ..pre },
            ImeEventV::Disabled => ImeTextV { is_ime: false, ..pre },
        }
    }
}

/// The text a field shows to the widget: the committed text verbatim when no
/// composition is active, otherwise the preedit visually inserted at the
/// cursor without being committed.
pub open spec fn display_of(t: ImeTextV) -> Seq<char> {
    if t.ime_string.len() == 0 {
        t.text
    } else {
        spliced(t.text, t.ime_string, t.cursor_index as nat)
    }
}

/// What the widget reported for one draw of a field.
pub struct EditUpdate {
    /// The widget's own edited copy of the displayed text.
    pub edited_text: String,
    /// Whether the widget has keyboard focus.
    pub has_focus: bool,
    /// Character offset of the primary cursor, when the widget reported one.
    pub cursor: Option<usize>,
}

/// What the host must do to the widget after a draw.
pub struct EditDirectives {
    /// Report the field as changed (a commit arrived since the last draw).
    pub mark_changed: bool,
    /// Move the widget's caret right by this many characters and store the
    /// corrected cursor back into the widget's retained state.
    pub advance_chars: Option<usize>,
}

/// The state after consuming the widget's report: focus adopted, the widget's
/// edited text adopted when IME is disabled (ordinary editing passes through),
/// the cursor adopted when reported, and the one-shot flags consumed.
pub open spec fn finish_applied(
    t: ImeTextV,
    edited: Seq<char>,
    has_focus: bool,
    cursor: Option<usize>,
) -> ImeTextV {
    ImeTextV {
        is_focus: has_focus,
        text: if t.is_ime {
            t.text
        } else {
            edited
        },
        cursor_index: match cursor {
            Some(c) => c,
            None => t.cursor_index,
        },
        is_ime_input: false,
        is_cursor_move: true,
        ..t
    }
}

/// The cursor-advance directive owed after a draw: when a commit is pending
/// and the one-shot advance is armed, the caret moves right by the preedit
/// length that was measured before the commit cleared the preedit.
pub open spec fn advance_of(t: ImeTextV) -> Option<usize> {
    if t.is_ime_input && t.is_cursor_move {
        Some(t.ime_string_index)
    } else {
        None
    }
}

impl ImeText {
    /// A freshly created field state.
    pub fn new() -> (r: ImeText)
        ensures
            r@ == ImeTextV::init(),
    {
        ImeText {
            id: String::new(),
            text: String::new(),
            ime_string: String::new(),
            ime_string_index: 0,
            cursor_index: 0,
            is_ime_input: false,
            is_focus: false,
            is_ime: false,
            is_cursor_move: true,
            multiline: false,
            is_used: false,
        }
    }

    /// Reacts to one composition event, exactly as [`event_applied`] states.
    pub fn listen_ime_event(&mut self, event: &ImeEvent)
        ensures
            final(self)@ == event_applied(old(self)@, event@),
    {
        if !self.is_focus {
            return ;
        }
        match event {
            ImeEvent::Preedit { value, has_cursor } => {
                if *has_cursor {
                    self.ime_string = value.clone();
                    self.ime_string_index = self.ime_string.as_str().unicode_len();
                }
                proof {
                    assert(self@ =~= event_applied(old(self)@, event@));
                }
            },
            ImeEvent::Commit { value } => {
                if value.as_str().is_empty() {
                    self.is_cursor_move = false;
                }
                let new_text = splice_at(self.text.as_str(), value.as_str(), self.cursor_index);
                self.text = new_text;
                self.is_ime_input = true;
                self.ime_string = String::new();
                proof {
                    assert(self@ =~= event_applied(old(self)@, event@));
                }
            },
            ImeEvent::Enabled => {
                self.is_ime = true;
                proof {
                    assert(self@ =~= event_applied(old(self)@, event@));
                }
            },
            ImeEvent::Disabled => {
                self.is_ime = false;
                proof {
                    assert(self@ =~= event_applied(old(self)@, event@));
                }
            },
        }
    }

    /// Marks the field as drawn this frame, records its line mode, and returns
    /// the text to hand to the widget.
    pub fn begin_edit(&mut self, multiline: bool) -> (display: String)
        ensures
            final(self)@ == (ImeTextV { multiline, is_used: true, ..old(self)@ }),
            display@ == display_of(old(self)@),
    {
        self.multiline = multiline;
        self.is_used = true;
        let display = if self.ime_string.as_str().is_empty() {
            self.text.clone()
        } else {
            splice_at(self.text.as_str(), self.ime_string.as_str(), self.cursor_index)
        };
        proof {
            assert(self@ =~= (ImeTextV { multiline, is_used: true, ..old(self)@ }));
        }
        display
    }

    /// Consumes the widget's report for this frame and returns what the host
    /// must still do to the widget, exactly as [`finish_applied`] and
    /// [`advance_of`] state.
    pub fn finish_edit(&mut self, upd: &EditUpdate) -> (d: EditDirectives)
        ensures
            final(self)@ == finish_applied(
                old(self)@,
                upd.edited_text@,
                upd.has_focus,
                upd.cursor,
            ),
            d.mark_changed == old(self)@.is_ime_input,
            d.advance_chars == advance_of(old(self)@),
    {
        self.is_focus = upd.has_focus;
        if !self.is_ime {
            self.text = upd.edited_text.clone();
        }
        match upd.cursor {
            Some(c) => {
                self.cursor_index = c;
            },
            None => {},
        }
        let d = EditDirectives {
            mark_changed: self.is_ime_input,
            advance_chars: if self.is_ime_input && self.is_cursor_move {
                Some(self.ime_string_index)
            } else {
                None
            },
        };
        self.is_ime_input = false;
        self.is_cursor_move = true;
        proof {
            assert(self@ =~= finish_applied(
                old(self)@,
                upd.edited_text@,
                upd.has_focus,
                upd.cursor,
            ));
        }
        d
    }
}

impl Default for ImeText {
    /// Same as [`ImeText::new`].
    fn default() -> (r: ImeText)
        ensures
            r@ == ImeTextV::init(),
    {
        ImeText::new()
    }
}

/// A commit with an empty value never changes the committed text and never
/// moves the cursor: the state after the commit has the same text and cursor
/// index, and (for a focused field, the only kind that reacts) the following
/// draw issues no cursor-advance directive.
pub proof fn lemma_empty_commit(t: ImeTextV, value: Seq<char>)
    requires
        value.len() == 0,
    ensures
        event_applied(t, ImeEventV::Commit { value }).text == t.text,
        event_applied(t, ImeEventV::Commit { value }).cursor_index == t.cursor_index,
        t.is_focus ==> advance_of(event_applied(t, ImeEventV::Commit { value })) is None,
{
    assert(spliced(t.text, value, t.cursor_index as nat) =~= t.text);
}

/// A non-empty commit to a focused, composing field leads the next draw to
/// advance the cursor by exactly the preedit length measured before the commit
/// cleared the preedit - unless the immediately preceding commit was empty,
/// which disarms the one-shot advance (see [`lemma_empty_commit`]).
pub proof fn lemma_commit_advances_by_preedit(t: ImeTextV, value: Seq<char>)
    requires
        t.wf(),
        t.is_focus,
        t.is_cursor_move,
        t.ime_string.len() > 0,
        value.len() > 0,
    ensures
        advance_of(event_applied(t, ImeEventV::Commit { value })) == Some(t.ime_string_index),
        t.ime_string_index as nat == t.ime_string.len(),
{
}

/// Every event whose payload fits in memory preserves the field invariant
/// tying the recorded preedit length to the preedit itself.
pub proof fn lemma_event_preserves_wf(t: ImeTextV, event: ImeEventV)
    requires
        t.wf(),
        event matches ImeEventV::Preedit { value, .. } ==> value.len() <= usize::MAX,
    ensures
        event_applied(t, event).wf(),
{
}

} // verus!
