use vstd::prelude::*;

verus! {

/// A single note record: a caller-supplied numeric identifier and two text
/// fields. A note is immutable once created — the store never rewrites one —
/// and no uniqueness is enforced on `id`.
pub struct Note {
    pub id: usize,
    pub title: String,
    pub content: String,
}

/// The mathematical value of a note: its three fields as plain mathematical
/// values. Contracts and laws speak of notes through this type.
pub ghost struct NoteV {
    pub id: int,
    pub title: Seq<char>,
    pub content: Seq<char>,
}

impl View for Note {
    type V = NoteV;

    open spec fn view(&self) -> NoteV {
        NoteV { id: self.id as int, title: self.title@, content: self.content@ }
    }
}

/// The values of a sequence of notes, element by element, in the same order.
pub open spec fn notes_view(s: Seq<Note>) -> Seq<NoteV> {
    s.map_values(|n: Note| n@)
}

impl Note {
    /// Build a note from its parts.
    pub fn new(id: usize, title: String, content: String) -> (r: Note)
        ensures
            r@ == (NoteV { id: id as int, title: title@, content: content@ }),
    {
        Note { id, title, content }
    }

    /// A copy of the note with the same value.
    pub fn duplicate(&self) -> (r: Note)
        ensures
            r@ == self@,
    {
        Note { id: self.id, title: self.title.clone(), content: self.content.clone() }
    }
}

} // verus!
