//! The store-level laws of the service, each proved over the spec-level
//! transitions that the executable operations are specified against.

use vstd::prelude::*;

use crate::note::Timestamp;
use crate::schema::{CreateModel, UpdateModel};
use crate::store::{
    can_create, id_taken, index_of_id, new_note_model, spec_create, spec_delete, spec_lookup,
    spec_patch, spec_update, store_wf, title_taken, StoreModel,
};

verus! {

/// A successful creation preserves the store's invariant.
pub proof fn lemma_create_preserves_wf(s: StoreModel, c: CreateModel, now: Timestamp)
    requires
        store_wf(s),
        can_create(s, c.title),
    ensures
        store_wf(spec_create(s, c, now)),
{
    let t = spec_create(s, c, now).notes;
    assert forall|i: int, j: int|
        0 <= i < t.len() && 0 <= j < t.len() && i != j implies #[trigger] t[i].id != #[trigger] t[j].id by {
        if i < s.notes.len() && j < s.notes.len() {
            assert(t[i] == s.notes[i] && t[j] == s.notes[j]);
        } else if i < s.notes.len() {
            assert(s.notes[i].id < s.next_id && t[j].id == s.next_id);
        } else {
            assert(s.notes[j].id < s.next_id && t[i].id == s.next_id);
        }
    }
    assert forall|i: int, j: int|
        0 <= i < t.len() && 0 <= j < t.len() && i != j implies #[trigger] t[i].title
        != #[trigger] t[j].title by {
        if i < s.notes.len() && j < s.notes.len() {
            assert(t[i] == s.notes[i] && t[j] == s.notes[j]);
        } else if i < s.notes.len() {
            assert(t[j].title == c.title && !title_taken(s.notes, c.title));
            assert(t[i] == s.notes[i]);
        } else {
            assert(t[i].title == c.title && !title_taken(s.notes, c.title));
            assert(t[j] == s.notes[j]);
        }
    }
}

/// The identifier a creation will assign next is carried by no stored
/// note: a created note's identifier is genuinely new.
pub proof fn lemma_next_id_is_fresh(s: StoreModel)
    requires
        store_wf(s),
    ensures
        !id_taken(s.notes, s.next_id),
{
}

/// Creating a note makes its title taken, so a second creation with an
/// equal title is refused and, by the creation contract, adds no note.
pub proof fn lemma_duplicate_title_conflicts(
    s: StoreModel,
    c1: CreateModel,
    c2: CreateModel,
    now: Timestamp,
)
    requires
        store_wf(s),
        can_create(s, c1.title),
        c2.title == c1.title,
    ensures
        title_taken(spec_create(s, c1, now).notes, c2.title),
        !can_create(spec_create(s, c1, now), c2.title),
{
    let t = spec_create(s, c1, now).notes;
    assert(t[s.notes.len() as int].title == c2.title);
}

/// Looking up an identifier no note carries finds nothing.
pub proof fn lemma_lookup_missing(s: StoreModel, id: u128)
    requires
        !id_taken(s.notes, id),
    ensures
        spec_lookup(s.notes, id) is None,
{
}

/// Looking up the identifier a creation just assigned finds exactly the
/// created note, unchanged.
pub proof fn lemma_lookup_after_create(s: StoreModel, c: CreateModel, now: Timestamp)
    requires
        store_wf(s),
        can_create(s, c.title),
    ensures
        spec_lookup(spec_create(s, c, now).notes, s.next_id) == Some(new_note_model(s, c, now)),
{
    let t = spec_create(s, c, now).notes;
    let n = s.notes.len() as int;
    assert(t[n].id == s.next_id);
    assert(id_taken(t, s.next_id));
    let k = index_of_id(t, s.next_id);
    assert(0 <= k < t.len() && t[k].id == s.next_id);
    if k < n {
        assert(t[k] == s.notes[k]);
        assert(s.notes[k].id < s.next_id);
    }
    assert(k == n);
}

/// An update that carries only new content leaves the note's title,
/// category and published flag — and every other note — unchanged, and
/// changes exactly the content of the addressed note.
pub proof fn lemma_update_only_content(s: StoreModel, id: u128, u: UpdateModel, now: Timestamp)
    requires
        store_wf(s),
        id_taken(s.notes, id),
        u.title is None,
        u.category is None,
        u.published is None,
    ensures
        ({
            let i = index_of_id(s.notes, id);
            let before = s.notes[i];
            let after = spec_update(s, id, u, now);
            &&& after.notes.len() == s.notes.len()
            &&& after.notes[i].id == before.id
            &&& after.notes[i].title == before.title
            &&& after.notes[i].category == before.category
            &&& after.notes[i].published == before.published
            &&& after.notes[i].created_at == before.created_at
            &&& (match u.content {
                Some(c) => after.notes[i].content == c,
                None => after.notes[i].content == before.content,
            })
            &&& forall|j: int|
                0 <= j < s.notes.len() && j != i ==> #[trigger] after.notes[j] == s.notes[j]
        }),
{
}

/// Deleting an existing note removes exactly that note, keeps the store
/// well formed, and leaves its identifier taken by nobody: a second delete
/// of the same identifier finds nothing to remove.
pub proof fn lemma_delete_twice(s: StoreModel, id: u128)
    requires
        store_wf(s),
        id_taken(s.notes, id),
    ensures
        store_wf(spec_delete(s, id)),
        !id_taken(spec_delete(s, id).notes, id),
        spec_delete(s, id).notes.len() == s.notes.len() - 1,
{
    let i = index_of_id(s.notes, id);
    assert(0 <= i < s.notes.len() && s.notes[i].id == id);
    let t = spec_delete(s, id).notes;
    assert forall|j: int| 0 <= j < t.len() implies #[trigger] t[j].id != id by {
        if j < i {
            assert(t[j] == s.notes[j]);
        } else {
            assert(t[j] == s.notes[j + 1]);
        }
    }
    assert forall|j: int, k: int|
        0 <= j < t.len() && 0 <= k < t.len() && j != k implies #[trigger] t[j].id
        != #[trigger] t[k].id by {
        let j0: int = if j < i { j } else { j + 1 };
        let k0: int = if k < i { k } else { k + 1 };
        assert(t[j] == s.notes[j0] && t[k] == s.notes[k0]);
    }
    assert forall|j: int, k: int|
        0 <= j < t.len() && 0 <= k < t.len() && j != k implies #[trigger] t[j].title
        != #[trigger] t[k].title by {
        let j0: int = if j < i { j } else { j + 1 };
        let k0: int = if k < i { k } else { k + 1 };
        assert(t[j] == s.notes[j0] && t[k] == s.notes[k0]);
    }
    assert forall|j: int| 0 <= j < t.len() implies #[trigger] t[j].id < s.next_id by {
        if j < i {
            assert(t[j] == s.notes[j]);
        } else {
            assert(t[j] == s.notes[j + 1]);
        }
    }
}

/// A successful creation grows the listing by exactly one: the new note
/// stands at the end and every note listed before is still listed,
/// unchanged and in its place.
pub proof fn lemma_listing_after_create(s: StoreModel, c: CreateModel, now: Timestamp)
    requires
        store_wf(s),
        can_create(s, c.title),
    ensures
        spec_create(s, c, now).notes.len() == s.notes.len() + 1,
        spec_create(s, c, now).notes[s.notes.len() as int] == new_note_model(s, c, now),
        forall|i: int|
            0 <= i < s.notes.len() ==> #[trigger] spec_create(s, c, now).notes[i] == s.notes[i],
{
}

} // verus!
