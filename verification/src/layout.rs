//! Highlighted layout construction: the styled runs a field hands to the GUI
//! renderer, with byte ranges computed at this boundary only - all cursor and
//! splice arithmetic elsewhere stays in character units.

use vstd::prelude::*;
use vstd::utf8::encode_utf8;

use crate::field::{display_of, ImeText};
use crate::splice::{back_of, front_of};

verus! {

/// The length in bytes of the UTF-8 encoding of a character sequence; what
/// `str::len` returns for a string with those characters.
pub open spec fn byte_len(s: Seq<char>) -> nat {
    encode_utf8(s).len()
}

/// UTF-8 encoding is per character, so it distributes over concatenation.
pub proof fn lemma_encode_utf8_concat(a: Seq<char>, b: Seq<char>)
    ensures
        encode_utf8(a + b) == encode_utf8(a) + encode_utf8(b),
    decreases a.len(),
{
    if a.len() == 0 {
        assert(a + b =~= b);
        assert(encode_utf8(a) =~= Seq::<u8>::empty());
        assert(encode_utf8(a) + encode_utf8(b) =~= encode_utf8(b));
    } else {
        assert((a + b).drop_first() =~= a.drop_first() + b);
        lemma_encode_utf8_concat(a.drop_first(), b);
        assert(encode_utf8(a + b) =~= encode_utf8(a) + encode_utf8(b));
    }
}

/// One styled run over the layout text, as a byte range.
#[derive(Clone, Copy, PartialEq, Eq, Structural)]
pub struct LayoutSection {
    /// First byte of the run.
    pub start: usize,
    /// One past the last byte of the run.
    pub end: usize,
    /// Whether the run is drawn with the preedit highlight instead of the
    /// plain style.
    pub highlight: bool,
}

/// A styled run description for the GUI renderer: the text to lay out,
/// consecutive styled byte ranges over it, and the line-handling the field
/// asks for.  The host binds the wrap width when it builds the renderer's
/// own job from this.
pub struct LayoutSpec {
    /// The text to lay out.
    pub text: String,
    /// Consecutive styled byte ranges covering `text`.
    pub sections: Vec<LayoutSection>,
    /// Whether newlines break lines (multi-line fields only).
    pub break_on_newline: bool,
    /// Whether lines wrap at the field's configured width.
    pub wrap: bool,
}

impl ImeText {
    /// Builds the styled runs for this field.
    ///
    /// When no composition is active: one plain run over the committed text,
    /// wrapped only for multi-line fields.  When composing: three consecutive
    /// runs over the displayed text - front (plain), preedit (highlighted),
    /// back (plain) - with byte ranges computed cumulatively, and wrapping on.
    pub fn get_layoutjob(&self) -> (l: LayoutSpec)
        ensures
            l.break_on_newline == self@.multiline,
            l.text@ == display_of(self@),
            self@.ime_string.len() == 0 ==> {
                &&& l.wrap == self@.multiline
                &&& l.sections@.len() == 1
                &&& l.sections@[0].start == 0
                &&& l.sections@[0].end == byte_len(self@.text)
                &&& !l.sections@[0].highlight
            },
            self@.ime_string.len() > 0 ==> {
                let front = front_of(self@.text, self@.cursor_index as nat);
                let back = back_of(self@.text, self@.cursor_index as nat);
                &&& l.wrap
                &&& l.sections@.len() == 3
                &&& l.sections@[0].start == 0
                &&& l.sections@[0].end == byte_len(front)
                &&& !l.sections@[0].highlight
                &&& l.sections@[1].start == byte_len(front)
                &&& l.sections@[1].end == byte_len(front) + byte_len(self@.ime_string)
                &&& l.sections@[1].highlight
                &&& l.sections@[2].start == byte_len(front) + byte_len(self@.ime_string)
                &&& l.sections@[2].end == byte_len(front) + byte_len(self@.ime_string) + byte_len(
                    back,
                )
                &&& !l.sections@[2].highlight
            },
    {
        if self.ime_string.as_str().is_empty() {
            let text = self.text.clone();
            let end = text.as_str().as_bytes().len();
            let sections = vec![LayoutSection { start: 0, end, highlight: false }];
            LayoutSpec { text, sections, break_on_newline: self.multiline, wrap: self.multiline }
        } else {
            let n = self.text.as_str().unicode_len();
            let k = if self.cursor_index <= n {
                self.cursor_index
            } else {
                n
            };
            let front = self.text.as_str().substring_char(0, k);
            let back = self.text.as_str().substring_char(k, n);
            let front_bytes = front.as_bytes().len();
            let preedit_bytes = self.ime_string.as_str().as_bytes().len();
            let mut text = String::from_str(front);
            text.append(self.ime_string.as_str());
            text.append(back);
            let total_bytes = text.as_str().as_bytes().len();
            proof {
                lemma_encode_utf8_concat(front@ + self.ime_string@, back@);
                lemma_encode_utf8_concat(front@, self.ime_string@);
                assert(front@ =~= front_of(self@.text, self@.cursor_index as nat));
                assert(back@ =~= back_of(self@.text, self@.cursor_index as nat));
                assert(text@ =~= display_of(self@));
                assert(text@ =~= (front@ + self.ime_string@) + back@);
                assert(encode_utf8(text@).len() == encode_utf8(front@).len() + encode_utf8(
                    self.ime_string@,
                ).len() + encode_utf8(back@).len());
            }
            let highlight_end = front_bytes + preedit_bytes;
            let sections = vec![
                LayoutSection { start: 0, end: front_bytes, highlight: false },
                LayoutSection { start: front_bytes, end: highlight_end, highlight: true },
                LayoutSection { start: highlight_end, end: total_bytes, highlight: false },
            ];
            LayoutSpec { text, sections, break_on_newline: self.multiline, wrap: true }
        }
    }
}

} // verus!
