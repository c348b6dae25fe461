//! Character-index splicing: inserting one string into another at a cursor
//! position measured in characters, never bytes.

use vstd::prelude::*;

verus! {

/// The character index at which a text splits for a given cursor position.
/// A cursor past the end of the text splits at the end (the whole text is the
/// front run and the back run is empty).
pub open spec fn split_point(text: Seq<char>, cursor: nat) -> int {
    if cursor <= text.len() {
        cursor as int
    } else {
        text.len() as int
    }
}

/// The run of characters in front of the cursor.
pub open spec fn front_of(text: Seq<char>, cursor: nat) -> Seq<char> {
    text.take(split_point(text, cursor))
}

/// The run of characters behind the cursor.
pub open spec fn back_of(text: Seq<char>, cursor: nat) -> Seq<char> {
    text.skip(split_point(text, cursor))
}

/// The text with `ins` inserted at the cursor: front run, inserted run, back run.
pub open spec fn spliced(text: Seq<char>, ins: Seq<char>, cursor: nat) -> Seq<char> {
    front_of(text, cursor) + ins + back_of(text, cursor)
}

/// Splicing at a cursor within the text adds exactly the inserted character
/// count, and splitting the result at `cursor` and at `cursor + ins.len()`
/// recovers the front, inserted and back runs exactly.
pub proof fn lemma_splice_roundtrip(text: Seq<char>, ins: Seq<char>, cursor: nat)
    requires
        cursor <= text.len(),
    ensures
        spliced(text, ins, cursor).len() == text.len() + ins.len(),
        spliced(text, ins, cursor).take(cursor as int) == front_of(text, cursor),
        spliced(text, ins, cursor).subrange(cursor as int, cursor + ins.len() as int) == ins,
        spliced(text, ins, cursor).skip(cursor + ins.len() as int) == back_of(text, cursor),
        front_of(text, cursor) + back_of(text, cursor) == text,
{
    let r = spliced(text, ins, cursor);
    assert(r.take(cursor as int) =~= front_of(text, cursor));
    assert(r.subrange(cursor as int, cursor + ins.len() as int) =~= ins);
    assert(r.skip(cursor + ins.len() as int) =~= back_of(text, cursor));
    assert(front_of(text, cursor) + back_of(text, cursor) =~= text);
}

/// Inserts `ins` into `text` at character index `cursor`; a cursor beyond the
/// end appends.
pub fn splice_at(text: &str, ins: &str, cursor: usize) -> (r: String)
    ensures
        r@ == spliced(text@, ins@, cursor as nat),
{
    let n = text.unicode_len();
    let k = if cursor <= n {
        cursor
    } else {
        n
    };
    let front = text.substring_char(0, k);
    let back = text.substring_char(k, n);
    let mut r = String::from_str(front);
    r.append(ins);
    r.append(back);
    proof {
        assert(r@ =~= spliced(text@, ins@, cursor as nat));
    }
    r
}

} // verus!
