use vstd::prelude::*;

use crate::note::{notes_view, Note};
use crate::store::Store;

verus! {

/// Status of a successful list request.
pub const STATUS_OK: u16 = 200;

/// Status of a successful create request: a new resource was accepted.
pub const STATUS_CREATED: u16 = 201;

/// Status of a create request whose body does not match the note shape.
pub const STATUS_BAD_REQUEST: u16 = 400;

/// What the list handler hands to the transport: a status code and the notes
/// whose serialization is the response body. An empty store yields an empty
/// list of notes, which serializes as an empty array, not as an error.
pub struct ListResponse {
    pub status: u16,
    pub notes: Vec<Note>,
}

/// Handle a list request: take a consistent snapshot of the store and succeed.
/// Always returns `STATUS_OK`, with the full contents in order.
pub fn get_notes(store: &Store) -> (r: ListResponse)
    ensures
        r.status == STATUS_OK,
        notes_view(r.notes@) == store@,
{
    ListResponse { status: STATUS_OK, notes: store.snapshot() }
}

/// Handle a create request. `parsed` is the outcome of decoding the request
/// body against the note shape, with every field required: `None` when a
/// field is missing or of the wrong type. A malformed body is rejected with
/// `STATUS_BAD_REQUEST` before the store is touched; a well-formed one is
/// appended — no uniqueness or business rule is checked — and the request
/// succeeds with `STATUS_CREATED` and no body.
pub fn add_note(store: &mut Store, parsed: Option<Note>) -> (status: u16)
    ensures
        parsed matches Some(note) ==> status == STATUS_CREATED && final(store)@ == old(store)@.push(
            note@,
        ),
        parsed is None ==> status == STATUS_BAD_REQUEST && final(store)@ == old(store)@,
{
    match parsed {
        Some(note) => {
            store.append(note);
            STATUS_CREATED
        },
        None => STATUS_BAD_REQUEST,
    }
}

} // verus!
