//! One handler per HTTP verb and path: each performs exactly one store
//! operation and one response translation, and its contract alone fixes the
//! whole envelope and the store change for every outcome.

use vstd::prelude::*;

use crate::note::Timestamp;
use crate::response::{
    create_response, delete_response, get_response, list_response, not_found_message,
    update_response, ApiResponse, ResponseData,
};
use crate::schema::{CreateNoteSchema, FilterOptions, UpdateNoteSchema};
use crate::store::{
    can_create, id_taken, index_of_id, new_note_model, spec_create, spec_delete, spec_lookup,
    spec_patch, spec_update, title_taken, update_title_ok, NoteStore,
};

verus! {

/// Lists every note.  The pagination options are accepted and ignored; the
/// envelope reports the count and all notes in the store's order, or a
/// message when the store is empty.
pub fn handle_find_all(store: &NoteStore, _opts: FilterOptions) -> (r: ApiResponse)
    ensures
        r.code == 200 && r.status is Success,
        r.results matches Some(c) && c == store@.notes.len(),
        store@.notes.len() == 0 ==> r.data is Empty && (r.message matches Some(m) && m@
            == "No notes found"@),
        store@.notes.len() > 0 ==> (r.data matches ResponseData::Many(v) && v@.len()
            == store@.notes.len() && (forall|i: int|
            0 <= i < store@.notes.len() ==> #[trigger] v@[i]@ == store@.notes[i])) && r.message
            is None,
{
    let notes = store.find_all();
    list_response(Ok(notes))
}

/// Fetches one note by identifier: the note when it exists, a distinct
/// not-found envelope, naming the identifier, otherwise.
pub fn handle_find_by_id(store: &NoteStore, id: u128) -> (r: ApiResponse)
    requires
        store.wf(),
    ensures
        r.results is None,
        id_taken(store@.notes, id) ==> r.code == 200 && r.status is Success && (r.data
            matches ResponseData::One(d) && spec_lookup(store@.notes, id) == Some(d@))
            && r.message is None,
        !id_taken(store@.notes, id) ==> r.code == 404 && r.status is Fail && r.data is Empty && (
        r.message matches Some(m) && m@ == not_found_message(id)),
{
    get_response(id, Ok(store.find_by_id(id)))
}

/// Creates a note: a created envelope carrying the stored note on success,
/// a conflict envelope when the title is taken, and a generic error when no
/// identifier can be assigned.  A failed creation leaves the store as it was.
pub fn handle_create(store: &mut NoteStore, data: CreateNoteSchema, now: Timestamp) -> (r:
    ApiResponse)
    requires
        old(store).wf(),
    ensures
        final(store).wf(),
        r.results is None,
        can_create(old(store)@, data@.title) ==> r.code == 201 && r.status is Success && (r.data
            matches ResponseData::One(d) && d@ == new_note_model(old(store)@, data@, now))
            && r.message is None && final(store)@ == spec_create(old(store)@, data@, now),
        title_taken(old(store)@.notes, data@.title) ==> r.code == 409 && r.status is Fail
            && r.data is Empty && (r.message matches Some(m) && m@
            == "Note with that title already exists"@) && final(store)@ == old(store)@,
        !can_create(old(store)@, data@.title) && !title_taken(old(store)@.notes, data@.title)
            ==> r.code == 500 && r.status is Error && r.data is Empty && (r.message
            matches Some(m) && m@ == "Something went wrong while creating the note"@)
            && final(store)@ == old(store)@,
{
    let outcome = store.insert(data, now);
    create_response(outcome)
}

/// Applies a partial update: the patched note on success, a distinct
/// not-found envelope, naming the identifier, for an absent one, and a
/// failure envelope for a write the store rejects.  A failed update leaves
/// the store as it was.
pub fn handle_update(store: &mut NoteStore, id: u128, data: UpdateNoteSchema, now: Timestamp) -> (r:
    ApiResponse)
    requires
        old(store).wf(),
    ensures
        final(store).wf(),
        r.results is None,
        id_taken(old(store)@.notes, id) && update_title_ok(old(store)@, id, data@) ==> r.code == 200
            && r.status is Success && (r.data matches ResponseData::One(d) && d@ == spec_patch(
            old(store)@.notes[index_of_id(old(store)@.notes, id)],
            data@,
            now,
        )) && r.message is None && final(store)@ == spec_update(old(store)@, id, data@, now),
        !id_taken(old(store)@.notes, id) ==> r.code == 404 && r.status is Fail && r.data is Empty
            && (r.message matches Some(m) && m@ == not_found_message(id)) && final(store)@ == old(
            store,
        )@,
        id_taken(old(store)@.notes, id) && !update_title_ok(old(store)@, id, data@) ==> r.code
            == 500 && r.status is Fail && r.data is Empty && (r.message matches Some(m) && m@
            == "Failed to update the note"@) && final(store)@ == old(store)@,
{
    let outcome = store.update(id, data, now);
    update_response(id, outcome)
}

/// Deletes a note by identifier: an empty no-content envelope when it
/// existed, a distinct not-found envelope, naming the identifier, otherwise.
pub fn handle_delete(store: &mut NoteStore, id: u128) -> (r: ApiResponse)
    requires
        old(store).wf(),
    ensures
        final(store).wf(),
        r.results is None,
        id_taken(old(store)@.notes, id) ==> r.code == 204 && r.status is Success && r.data is Empty
            && r.message is None && final(store)@ == spec_delete(old(store)@, id),
        !id_taken(old(store)@.notes, id) ==> r.code == 404 && r.status is Fail && r.data is Empty
            && (r.message matches Some(m) && m@ == not_found_message(id)) && final(store)@ == old(
            store,
        )@,
{
    let rows = store.delete(id);
    delete_response(id, Ok(rows))
}

} // verus!
