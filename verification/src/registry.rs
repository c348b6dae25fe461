//! The per-frame registry: an ordered arena of field composition states,
//! assigned to fields by draw order within the frame and reclaimed at frame
//! end when a field was not drawn.

use vstd::prelude::*;

use crate::event::ImeEvent;
use crate::field::{
    advance_of, display_of, event_applied, finish_applied, EditDirectives, EditUpdate, ImeText,
    ImeTextV,
};

verus! {

/// The registry of per-field composition states.
///
/// `ime_texts` holds one state per field in first-touched order within the
/// frame; `count` is the number of slots touched so far this frame, and
/// assigns the next untouched slot to the next field drawn, so no
/// caller-supplied identity is needed.
pub struct ImeManager {
    /// Slots touched so far in the current frame.
    pub count: usize,
    /// The per-field states, in first-touched order.
    pub ime_texts: Vec<ImeText>,
}

/// The mathematical form of an [`ImeManager`].
#[verifier::ext_equal]
pub struct ImeManagerV {
    pub count: usize,
    pub slots: Seq<ImeTextV>,
}

impl View for ImeManager {
    type V = ImeManagerV;

    open spec fn view(&self) -> ImeManagerV {
        ImeManagerV { count: self.count, slots: self.ime_texts@.map_values(|t: ImeText| t@) }
    }
}

impl ImeManager {
    /// The frame counter never runs ahead of the slots.
    pub open spec fn wf(&self) -> bool {
        self@.count <= self@.slots.len()
    }

    /// An empty registry.
    pub fn new() -> (r: ImeManager)
        ensures
            r.wf(),
            r@.count == 0,
            r@.slots.len() == 0,
    {
        let r = ImeManager { count: 0, ime_texts: Vec::new() };
        proof {
            assert(r@.slots =~= Seq::<ImeTextV>::empty());
        }
        r
    }

    /// Starts a frame: marks every slot untouched and resets the frame
    /// counter.  Must run before event dispatch and before any field is drawn.
    pub fn begin_frame(&mut self)
        ensures
            final(self).wf(),
            final(self)@.count == 0,
            final(self)@.slots.len() == old(self)@.slots.len(),
            forall|i: int|
                0 <= i < old(self)@.slots.len() ==> final(self)@.slots[i] == (ImeTextV {
                    is_used: false,
                    ..old(self)@.slots[i]
                }),
    {
        let n = self.ime_texts.len();
        let mut i: usize = 0;
        while i < n
            invariant
                i <= n,
                n == self.ime_texts@.len(),
                self.ime_texts@.len() == old(self).ime_texts@.len(),
                forall|j: int|
                    0 <= j < i ==> self.ime_texts@[j]@ == (ImeTextV {
                        is_used: false,
                        ..old(self).ime_texts@[j]@
                    }),
                forall|j: int| i <= j < n ==> self.ime_texts@[j] == old(self).ime_texts@[j],
            decreases n - i,
        {
            let slot = &mut self.ime_texts[i];
            slot.is_used = false;
            i += 1;
        }
        self.count = 0;
    }

    /// Fans one composition event out to every slot; each slot reacts exactly
    /// as [`event_applied`] states (so only focused slots change).
    pub fn listen_ime_event(&mut self, event: &ImeEvent)
        ensures
            final(self)@.count == old(self)@.count,
            final(self)@.slots.len() == old(self)@.slots.len(),
            forall|i: int|
                0 <= i < old(self)@.slots.len() ==> final(self)@.slots[i] == event_applied(
                    old(self)@.slots[i],
                    event@,
                ),
    {
        let n = self.ime_texts.len();
        let mut i: usize = 0;
        while i < n
            invariant
                i <= n,
                n == self.ime_texts@.len(),
                self.ime_texts@.len() == old(self).ime_texts@.len(),
                self.count == old(self).count,
                forall|j: int|
                    0 <= j < i ==> self.ime_texts@[j]@ == event_applied(
                        old(self).ime_texts@[j]@,
                        event@,
                    ),
                forall|j: int| i <= j < n ==> self.ime_texts@[j] == old(self).ime_texts@[j],
            decreases n - i,
        {
            let slot = &mut self.ime_texts[i];
            slot.listen_ime_event(event);
            i += 1;
        }
    }

    /// First half of drawing one field: picks the slot at the current frame
    /// counter, appending a fresh state seeded from the caller's buffer when
    /// every slot is already taken, marks it touched, records its line mode,
    /// and returns the text to hand to the widget.  The counter advances only
    /// in [`ImeManager::finish_edit`], once the widget's report is back.
    pub fn begin_edit(&mut self, text: &String, multiline: bool) -> (display: String)
        requires
            old(self).wf(),
        ensures
            final(self).wf(),
            final(self)@.count == old(self)@.count,
            old(self)@.count < old(self)@.slots.len() ==> {
                let i = old(self)@.count as int;
                &&& final(self)@.slots.len() == old(self)@.slots.len()
                &&& (forall|j: int|
                    0 <= j < old(self)@.slots.len() && j != i ==> final(self)@.slots[j] == old(
                        self,
                    )@.slots[j])
                &&& final(self)@.slots[i] == (ImeTextV {
                    multiline,
                    is_used: true,
                    ..old(self)@.slots[i]
                })
                &&& display@ == display_of(old(self)@.slots[i])
            },
            old(self)@.count >= old(self)@.slots.len() ==> {
                let i = old(self)@.count as int;
                &&& final(self)@.slots.len() == old(self)@.slots.len() + 1
                &&& (forall|j: int|
                    0 <= j < old(self)@.slots.len() ==> final(self)@.slots[j] == old(
                        self,
                    )@.slots[j])
                &&& final(self)@.slots[i] == (ImeTextV {
                    text: text@,
                    multiline,
                    is_used: true,
                    ..ImeTextV::init()
                })
                &&& display@ == text@
            },
    {
        if self.count >= self.ime_texts.len() {
            let mut fresh = ImeText::new();
            fresh.text = text.clone();
            self.ime_texts.push(fresh);
        }
        let idx = self.count;
        let slot = &mut self.ime_texts[idx];
        let display = slot.begin_edit(multiline);
        display
    }

    /// Second half of drawing one field: consumes the widget's report into the
    /// slot at the frame counter, records the widget-assigned identity, writes
    /// the slot's committed text back into the caller's buffer, advances the
    /// counter, and returns what the host must still do to the widget.
    /// Returns `None`, changing nothing, when no slot is pending (no matching
    /// [`ImeManager::begin_edit`] ran this frame).
    pub fn finish_edit(&mut self, buffer: &mut String, id: &str, upd: &EditUpdate) -> (d: Option<
        EditDirectives,
    >)
        requires
            old(self).wf(),
        ensures
            final(self).wf(),
            old(self)@.count >= old(self)@.slots.len() ==> {
                &&& d is None
                &&& final(self)@ == old(self)@
                &&& final(buffer)@ == old(buffer)@
            },
            old(self)@.count < old(self)@.slots.len() ==> {
                let i = old(self)@.count as int;
                let pre = old(self)@.slots[i];
                let post = (ImeTextV {
                    id: id@,
                    ..finish_applied(pre, upd.edited_text@, upd.has_focus, upd.cursor)
                });
                &&& final(self)@.count == old(self)@.count + 1
                &&& final(self)@.slots.len() == old(self)@.slots.len()
                &&& (forall|j: int|
                    0 <= j < old(self)@.slots.len() && j != i ==> final(self)@.slots[j] == old(
                        self,
                    )@.slots[j])
                &&& final(self)@.slots[i] == post
                &&& final(buffer)@ == post.text
                &&& d == Some(
                    EditDirectives { mark_changed: pre.is_ime_input, advance_chars: advance_of(pre) },
                )
            },
    {
        if self.count >= self.ime_texts.len() {
            return None;
        }
        let idx = self.count;
        let slot = &mut self.ime_texts[idx];
        let d = slot.finish_edit(upd);
        slot.id = String::from_str(id);
        *buffer = slot.text.clone();
        self.count = idx + 1;
        Some(d)
    }

    /// Ends a frame: removes every slot that was not touched by an edit this
    /// frame, keeping the touched slots in their draw order.
    pub fn end_frame(&mut self)
        ensures
            final(self)@.count == old(self)@.count,
            final(self)@.slots == touched_only(old(self)@.slots),
    {
        broadcast use Seq::filter_distributes_over_add;

        let ghost o = self@.slots;
        let mut i: usize = self.ime_texts.len();
        proof {
            assert(o.skip(o.len() as int).filter(|t: ImeTextV| t.is_used) =~= Seq::<
                ImeTextV,
            >::empty()) by {
                reveal_with_fuel(Seq::<ImeTextV>::filter, 2);
            }
            assert(self@.slots =~= o.take(i as int) + touched_only(o.skip(i as int)));
        }
        while i > 0
            invariant
                i <= o.len(),
                o == old(self)@.slots,
                self.count == old(self).count,
                self@.slots =~= o.take(i as int) + touched_only(o.skip(i as int)),
            decreases i,
        {
            i -= 1;
            proof {
                reveal_with_fuel(Seq::<ImeTextV>::filter, 2);
                assert(o.skip(i as int) =~= seq![o[i as int]] + o.skip(i as int + 1));
                assert(seq![o[i as int]].drop_last() =~= Seq::<ImeTextV>::empty());
                assert(touched_only(seq![o[i as int]]) =~= (if o[i as int].is_used {
                    seq![o[i as int]]
                } else {
                    Seq::<ImeTextV>::empty()
                }));
                assert(touched_only(o.skip(i as int)) =~= touched_only(seq![o[i as int]])
                    + touched_only(o.skip(i as int + 1)));
                assert(o.take(i as int + 1).len() == i as int + 1);
                assert(self@.slots.len() > i as int);
                assert(self.ime_texts@.len() == self@.slots.len());
                assert(self@.slots[i as int] == o[i as int]);
                assert(self.ime_texts@[i as int]@ == self@.slots[i as int]);
            }
            if !self.ime_texts[i].is_used {
                let ghost before = self@.slots;
                self.ime_texts.remove(i);
                proof {
                    assert(self@.slots =~= before.remove(i as int));
                    assert(self@.slots =~= o.take(i as int) + touched_only(o.skip(i as int)));
                }
            } else {
                proof {
                    assert(o.take(i as int + 1) =~= o.take(i as int).push(o[i as int]));
                    assert(self@.slots =~= o.take(i as int) + touched_only(o.skip(i as int)));
                }
            }
        }
        proof {
            assert(o.take(0) + touched_only(o.skip(0)) =~= touched_only(o));
        }
    }

    /// Overwrites the committed text of the first slot whose identity matches;
    /// a no-op (not an error) when no slot matches, exactly as
    /// [`set_text_applied`] states.  Out-of-band injection: apply it only
    /// between frames, never between the two halves of a draw.
    pub fn set_text(&mut self, id: &str, text: &str)
        ensures
            final(self)@.count == old(self)@.count,
            final(self)@.slots == set_text_applied(old(self)@.slots, id@, text@),
    {
        let id_owned = String::from_str(id);
        let n = self.ime_texts.len();
        let mut i: usize = 0;
        while i < n
            invariant
                i <= n,
                n == self.ime_texts@.len(),
                *self == *old(self),
                id_owned@ == id@,
                forall|j: int| 0 <= j < i ==> old(self)@.slots[j].id != id@,
            decreases n - i,
        {
            proof {
                assert(old(self)@.slots[i as int] == self.ime_texts@[i as int]@);
            }
            if self.ime_texts[i].id.eq(&id_owned) {
                let slot = &mut self.ime_texts[i];
                slot.text = String::from_str(text);
                proof {
                    lemma_set_text_applied_hit(old(self)@.slots, id@, text@, i as int);
                    assert(self@.slots =~= set_text_applied(old(self)@.slots, id@, text@));
                }
                return ;
            }
            i += 1;
        }
        proof {
            lemma_set_text_applied_miss(old(self)@.slots, id@, text@);
        }
    }
}

impl Default for ImeManager {
    /// Same as [`ImeManager::new`].
    fn default() -> (r: ImeManager)
        ensures
            r.wf(),
            r@.count == 0,
            r@.slots.len() == 0,
    {
        ImeManager::new()
    }
}

/// The slots that survive the reclaim at frame end: exactly those touched by
/// an edit this frame, in their original order.
pub open spec fn touched_only(slots: Seq<ImeTextV>) -> Seq<ImeTextV> {
    slots.filter(|t: ImeTextV| t.is_used)
}

/// The slots after a text injection by identity: the first slot whose `id`
/// matches gets its committed text overwritten, every other slot stays, and
/// nothing changes when no slot matches.
pub open spec fn set_text_applied(slots: Seq<ImeTextV>, id: Seq<char>, value: Seq<char>) -> Seq<
    ImeTextV,
>
    decreases slots.len(),
{
    if slots.len() == 0 {
        slots
    } else if slots[0].id == id {
        slots.update(0, (ImeTextV { text: value, ..slots[0] }))
    } else {
        seq![slots[0]] + set_text_applied(slots.drop_first(), id, value)
    }
}

/// When the first matching identity sits at index `i`, the injection updates
/// exactly that slot.
pub proof fn lemma_set_text_applied_hit(slots: Seq<ImeTextV>, id: Seq<char>, value: Seq<char>, i: int)
    requires
        0 <= i < slots.len(),
        slots[i].id == id,
        forall|j: int| 0 <= j < i ==> slots[j].id != id,
    ensures
        set_text_applied(slots, id, value) == slots.update(i, (ImeTextV { text: value, ..slots[i] })),
    decreases i,
{
    if i == 0 {
    } else {
        lemma_set_text_applied_hit(slots.drop_first(), id, value, i - 1);
        assert(set_text_applied(slots, id, value) =~= slots.update(
            i,
            (ImeTextV { text: value, ..slots[i] }),
        ));
    }
}

/// After a frame in which exactly the first `k` slots were touched - as the
/// edit entry points leave them, touching slots in draw order from the start -
/// the reclaim at frame end keeps exactly those `k` slots, in their call
/// order.
pub proof fn lemma_end_frame_keeps_touched(slots: Seq<ImeTextV>, k: int)
    requires
        0 <= k <= slots.len(),
        forall|j: int| 0 <= j < slots.len() ==> (slots[j].is_used <==> j < k),
    ensures
        touched_only(slots) == slots.take(k),
    decreases slots.len(),
{
    reveal_with_fuel(Seq::<ImeTextV>::filter, 2);
    if slots.len() == 0 {
        assert(touched_only(slots) =~= slots.take(k));
    } else if k == slots.len() {
        lemma_end_frame_keeps_touched(slots.drop_last(), k - 1);
        assert(touched_only(slots) =~= slots.take(k));
    } else {
        lemma_end_frame_keeps_touched(slots.drop_last(), k);
        assert(slots.drop_last().take(k) =~= slots.take(k));
        assert(touched_only(slots) =~= slots.take(k));
    }
}

/// Injecting text by identity and then drawing that field - with no
/// composition in progress on it - displays exactly the injected text: the
/// text handed to the widget by the edit entry point is the injected value.
pub proof fn lemma_set_text_then_edit(
    slots: Seq<ImeTextV>,
    i: int,
    id: Seq<char>,
    value: Seq<char>,
)
    requires
        0 <= i < slots.len(),
        slots[i].id == id,
        forall|j: int| 0 <= j < i ==> slots[j].id != id,
        slots[i].ime_string.len() == 0,
    ensures
        display_of(set_text_applied(slots, id, value)[i]) == value,
{
    lemma_set_text_applied_hit(slots, id, value, i);
}

/// When no slot's identity matches, the injection changes nothing.
pub proof fn lemma_set_text_applied_miss(slots: Seq<ImeTextV>, id: Seq<char>, value: Seq<char>)
    requires
        forall|j: int| 0 <= j < slots.len() ==> slots[j].id != id,
    ensures
        set_text_applied(slots, id, value) == slots,
    decreases slots.len(),
{
    if slots.len() == 0 {
    } else {
        lemma_set_text_applied_miss(slots.drop_first(), id, value);
        assert(set_text_applied(slots, id, value) =~= slots);
    }
}

} // verus!
