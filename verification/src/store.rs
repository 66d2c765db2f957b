use vstd::prelude::*;

use crate::note::{notes_view, Note, NoteV};

verus! {

/// The authoritative, append-only collection of notes, insertion order
/// preserved.
///
/// The store is the sole owner of its sequence. It is a plain value type:
/// callers that share one instance across concurrent tasks wrap it in an
/// exclusive-access guard, acquire the guard immediately before an `append`
/// or `snapshot` call and release it immediately after, so that no two
/// appends interleave and no reader sees a partially appended note.
///
/// Its abstract value is the sequence of note values it holds.
pub struct Store {
    notes: Vec<Note>,
}

impl View for Store {
    type V = Seq<NoteV>;

    closed spec fn view(&self) -> Seq<NoteV> {
        notes_view(self.notes@)
    }
}

impl Store {
    /// A fresh store holding no notes.
    pub fn new() -> (r: Store)
        ensures
            r@ == Seq::<NoteV>::empty(),
    {
        let r = Store { notes: Vec::new() };
        proof {
            assert(r@ =~= Seq::<NoteV>::empty());
        }
        r
    }

    /// How many notes the store holds.
    pub fn len(&self) -> (n: usize)
        ensures
            n == self@.len(),
    {
        self.notes.len()
    }

    /// Add `note` at the end of the sequence. Never fails: there is no
    /// capacity limit and no uniqueness check. Every earlier note keeps its
    /// position; the new note is last.
    pub fn append(&mut self, note: Note)
        ensures
            final(self)@ == old(self)@.push(note@),
    {
        self.notes.push(note);
        proof {
            assert(notes_view(self.notes@) =~= notes_view(old(self).notes@).push(note@));
        }
    }

    /// A copy of the full current sequence, in order. Does not mutate the
    /// store, and on an empty store returns an empty sequence, not an error.
    pub fn snapshot(&self) -> (r: Vec<Note>)
        ensures
            notes_view(r@) == self@,
            self@.len() == 0 ==> r@ == Seq::<Note>::empty(),
    {
        let mut out: Vec<Note> = Vec::new();
        let mut i: usize = 0;
        while i < self.notes.len()
            invariant
                i <= self.notes.len(),
                out@.len() == i,
                forall|j: int| 0 <= j < i ==> (#[trigger] out@[j])@ == self.notes@[j]@,
            decreases self.notes.len() - i,
        {
            let next = self.notes[i].duplicate();
            out.push(next);
            i = i + 1;
        }
        proof {
            assert(notes_view(out@) =~= notes_view(self.notes@));
            if self@.len() == 0 {
                assert(out@ =~= Seq::<Note>::empty());
            }
        }
        out
    }
}

} // verus!
