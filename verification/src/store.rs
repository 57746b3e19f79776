//! The note store: an in-memory realisation of the entity semantics the
//! service relies on — identifiers assigned once and never reused, titles
//! unique across all notes, partial updates, and hard deletes.

use vstd::prelude::*;

use crate::note::{Note, NoteModel, Timestamp};
use crate::schema::{CreateModel, CreateNoteSchema, UpdateModel, UpdateNoteSchema};

verus! {

/// The model of the whole store: the stored notes in their natural order,
/// and the identifier the next created note will receive.
#[verifier::ext_equal]
pub ghost struct StoreModel {
    pub notes: Seq<NoteModel>,
    pub next_id: u128,
}

/// Some stored note carries this identifier.
pub open spec fn id_taken(notes: Seq<NoteModel>, id: u128) -> bool {
    exists|i: int| 0 <= i < notes.len() && notes[i].id == id
}

/// Some stored note carries this title.
pub open spec fn title_taken(notes: Seq<NoteModel>, title: Seq<char>) -> bool {
    exists|i: int| 0 <= i < notes.len() && notes[i].title == title
}

/// The position of the note carrying this identifier; meaningful only when
/// `id_taken` holds, and unique under `store_wf`.
pub open spec fn index_of_id(notes: Seq<NoteModel>, id: u128) -> int {
    choose|i: int| 0 <= i < notes.len() && notes[i].id == id
}

/// The stored note with this identifier, if any.
pub open spec fn spec_lookup(notes: Seq<NoteModel>, id: u128) -> Option<NoteModel> {
    if id_taken(notes, id) {
        Some(notes[index_of_id(notes, id)])
    } else {
        None
    }
}

/// Well-formedness of the store: identifiers are distinct, titles are
/// distinct, and every identifier lies below the next one to be assigned.
pub open spec fn store_wf(s: StoreModel) -> bool {
    &&& forall|i: int, j: int|
        #![trigger s.notes[i].id, s.notes[j].id]
        0 <= i < s.notes.len() && 0 <= j < s.notes.len() && i != j
            ==> s.notes[i].id != s.notes[j].id
    &&& forall|i: int, j: int|
        #![trigger s.notes[i].title, s.notes[j].title]
        0 <= i < s.notes.len() && 0 <= j < s.notes.len() && i != j
            ==> s.notes[i].title != s.notes[j].title
    &&& forall|i: int| 0 <= i < s.notes.len() ==> #[trigger] s.notes[i].id < s.next_id
}

/// The note a creation request gives rise to: the requested text, the next
/// free identifier, both timestamps set to the moment of creation, and the
/// published flag left unset by the creation path.
pub open spec fn new_note_model(s: StoreModel, c: CreateModel, now: Timestamp) -> NoteModel {
    NoteModel {
        id: s.next_id,
        title: c.title,
        content: c.content,
        category: c.category,
        published: None,
        created_at: Some(now),
        updated_at: Some(now),
    }
}

/// A creation request succeeds exactly when its title is free and an
/// identifier can still be assigned.
pub open spec fn can_create(s: StoreModel, title: Seq<char>) -> bool {
    &&& !title_taken(s.notes, title)
    &&& s.next_id < u128::MAX
}

/// The store after a successful creation.
pub open spec fn spec_create(s: StoreModel, c: CreateModel, now: Timestamp) -> StoreModel {
    StoreModel {
        notes: s.notes.push(new_note_model(s, c, now)),
        next_id: (s.next_id + 1) as u128,
    }
}

/// A note after a partial update: each field present in the request
/// overwrites the stored one, each absent field is kept, the identifier and
/// creation time never change, and the update time is set to the moment of
/// the update.
pub open spec fn spec_patch(n: NoteModel, u: UpdateModel, now: Timestamp) -> NoteModel {
    NoteModel {
        id: n.id,
        title: match u.title {
            Some(t) => t,
            None => n.title,
        },
        content: match u.content {
            Some(c) => c,
            None => n.content,
        },
        category: match u.category {
            Some(c) => Some(c),
            None => n.category,
        },
        published: match u.published {
            Some(p) => Some(p),
            None => n.published,
        },
        created_at: n.created_at,
        updated_at: Some(now),
    }
}

/// An update leaves every title unique exactly when the title it writes, if
/// any, is carried by no other note.
pub open spec fn update_title_ok(s: StoreModel, id: u128, u: UpdateModel) -> bool {
    match u.title {
        Some(t) => forall|i: int|
            0 <= i < s.notes.len() && s.notes[i].id != id ==> #[trigger] s.notes[i].title != t,
        None => true,
    }
}

/// The store after a successful update of the note with this identifier.
pub open spec fn spec_update(s: StoreModel, id: u128, u: UpdateModel, now: Timestamp) -> StoreModel {
    let i = index_of_id(s.notes, id);
    StoreModel { notes: s.notes.update(i, spec_patch(s.notes[i], u, now)), next_id: s.next_id }
}

/// The store after deleting the note with this identifier.
pub open spec fn spec_delete(s: StoreModel, id: u128) -> StoreModel {
    StoreModel { notes: s.notes.remove(index_of_id(s.notes, id)), next_id: s.next_id }
}

/// Why the store turned an operation down.
#[derive(Debug, PartialEq, Eq, Structural, Clone, Copy)]
pub enum StoreError {
    /// A unique constraint was violated: the title is already in use.
    Conflict,
    /// Any other failure of the store.
    Other,
}

/// Why an update was turned down.
#[derive(Debug, PartialEq, Eq, Structural, Clone, Copy)]
pub enum UpdateFailure {
    /// No note carries the requested identifier.
    NotFound,
    /// The write was rejected: the title it carries is already in use.
    Rejected,
    /// The initial fetch of the note failed outright.
    FetchFailed,
}

/// Applies a partial update to one note: each field present in the request
/// overwrites the stored one, each absent field is kept, the identifier and
/// creation time never change, and the update time is set to the moment of
/// the update.
pub fn patch_note(n: Note, u: UpdateNoteSchema, now: Timestamp) -> (r: Note)
    ensures
        r@ == spec_patch(n@, u@, now),
{
    Note {
        id: n.id,
        title: match u.title {
            Some(t) => t,
            None => n.title,
        },
        content: match u.content {
            Some(c) => c,
            None => n.content,
        },
        category: match u.category {
            Some(c) => Some(c),
            None => n.category,
        },
        published: match u.published {
            Some(p) => Some(p),
            None => n.published,
        },
        created_at: n.created_at,
        updated_at: Some(now),
    }
}

/// The in-memory note store.
pub struct NoteStore {
    notes: Vec<Note>,
    next_id: u128,
}

impl View for NoteStore {
    type V = StoreModel;

    closed spec fn view(&self) -> StoreModel {
        StoreModel { notes: self.notes@.map_values(|n: Note| n@), next_id: self.next_id }
    }
}

impl NoteStore {
    /// The store's invariant.
    pub open spec fn wf(self) -> bool {
        store_wf(self@)
    }

    /// An empty store; identifiers start at one.
    pub fn new() -> (s: Self)
        ensures
            s.wf(),
            s@ == (StoreModel { notes: Seq::<NoteModel>::empty(), next_id: 1 }),
    {
        let s = NoteStore { notes: Vec::new(), next_id: 1 };
        proof {
            assert(s@.notes =~= Seq::<NoteModel>::empty());
            assert(s@ =~= (StoreModel { notes: Seq::<NoteModel>::empty(), next_id: 1 }));
        }
        s
    }

    /// How many notes the store holds.
    pub fn count(&self) -> (n: usize)
        ensures
            n == self@.notes.len(),
    {
        self.notes.len()
    }

    /// The position of the note with this identifier, if any.
    fn find_index_by_id(&self, id: u128) -> (r: Option<usize>)
        ensures
            match r {
                Some(i) => i < self@.notes.len() && self@.notes[i as int].id == id,
                None => !id_taken(self@.notes, id),
            },
    {
        let n = self.notes.len();
        let mut i: usize = 0;
        while i < n
            invariant
                n == self.notes.len(),
                i <= n,
                forall|j: int| 0 <= j < i ==> self@.notes[j].id != id,
            decreases n - i,
        {
            if self.notes[i].id == id {
                return Some(i);
            }
            i += 1;
        }
        None
    }

    /// Whether some note other than the one at `skip` carries this title.
    fn title_used_elsewhere(&self, title: &String, skip: Option<usize>) -> (r: bool)
        ensures
            r <==> exists|i: int|
                0 <= i < self@.notes.len() && self@.notes[i].title == title@ && (match skip {
                    Some(k) => i != k,
                    None => true,
                }),
    {
        let n = self.notes.len();
        let mut i: usize = 0;
        while i < n
            invariant
                n == self.notes.len(),
                i <= n,
                forall|j: int|
                    0 <= j < i ==> !(self@.notes[j].title == title@ && (match skip {
                        Some(k) => j != k,
                        None => true,
                    })),
            decreases n - i,
        {
            let skipped = match skip {
                Some(k) => k == i,
                None => false,
            };
            if !skipped && self.notes[i].title == *title {
                proof {
                    assert(self@.notes[i as int].title == title@);
                }
                return true;
            }
            i += 1;
        }
        false
    }

    /// Creates a note.  Succeeds exactly when the title is free and an
    /// identifier can still be assigned, returning the stored note; a taken
    /// title is a conflict; an exhausted identifier space is any-other-error.
    /// A failed creation leaves the store unchanged.
    pub fn insert(&mut self, data: CreateNoteSchema, now: Timestamp) -> (r: Result<
        Note,
        StoreError,
    >)
        requires
            old(self).wf(),
        ensures
            final(self).wf(),
            r is Ok <==> can_create(old(self)@, data@.title),
            match r {
                Ok(n) => n@ == new_note_model(old(self)@, data@, now) && final(self)@
                    == spec_create(old(self)@, data@, now),
                Err(e) => final(self)@ == old(self)@ && (e is Conflict <==> title_taken(
                    old(self)@.notes,
                    data@.title,
                )),
            },
    {
        if self.title_used_elsewhere(&data.title, None) {
            return Err(StoreError::Conflict);
        }
        if self.next_id == u128::MAX {
            return Err(StoreError::Other);
        }
        let note = Note {
            id: self.next_id,
            title: data.title,
            content: data.content,
            category: data.category,
            published: None,
            created_at: Some(now),
            updated_at: Some(now),
        };
        let out = note.clone();
        let ghost pre = self@;
        self.notes.push(note);
        self.next_id = self.next_id + 1;
        proof {
            assert(self@.notes =~= pre.notes.push(out@));
            assert(self@ =~= spec_create(pre, data@, now));
        }
        Ok(out)
    }

    /// Every stored note, in the store's natural order, as copies.
    pub fn find_all(&self) -> (r: Vec<Note>)
        ensures
            r@.map_values(|n: Note| n@) == self@.notes,
            r@.len() == self@.notes.len(),
    {
        let n = self.notes.len();
        let mut out: Vec<Note> = Vec::new();
        let mut i: usize = 0;
        while i < n
            invariant
                n == self.notes.len(),
                i <= n,
                out@.len() == i,
                forall|j: int| 0 <= j < i ==> #[trigger] out@[j]@ == self@.notes[j],
            decreases n - i,
        {
            out.push(self.notes[i].clone());
            i += 1;
        }
        proof {
            assert(out@.map_values(|x: Note| x@) =~= self@.notes);
        }
        out
    }

    /// The note with this identifier, if any, as a copy.
    pub fn find_by_id(&self, id: u128) -> (r: Option<Note>)
        requires
            self.wf(),
        ensures
            r is Some <==> id_taken(self@.notes, id),
            match r {
                Some(n) => spec_lookup(self@.notes, id) == Some(n@),
                None => spec_lookup(self@.notes, id) is None,
            },
    {
        match self.find_index_by_id(id) {
            Some(i) => {
                let n = self.notes[i].clone();
                proof {
                    let k = index_of_id(self@.notes, id);
                    assert(self@.notes[i as int].id == id && self@.notes[k].id == id);
                    assert(k == i as int);
                }
                Some(n)
            },
            None => None,
        }
    }

    /// Applies a partial update to the note with this identifier.  Succeeds
    /// exactly when the note exists and the title the request writes, if
    /// any, collides with no other note; the patched note is returned.  A
    /// failed update leaves the store unchanged.
    pub fn update(&mut self, id: u128, data: UpdateNoteSchema, now: Timestamp) -> (r: Result<
        Note,
        UpdateFailure,
    >)
        requires
            old(self).wf(),
        ensures
            final(self).wf(),
            r is Ok <==> id_taken(old(self)@.notes, id) && update_title_ok(
                old(self)@,
                id,
                data@,
            ),
            match r {
                Ok(n) => n@ == spec_patch(
                    old(self)@.notes[index_of_id(old(self)@.notes, id)],
                    data@,
                    now,
                ) && final(self)@ == spec_update(old(self)@, id, data@, now),
                Err(e) => final(self)@ == old(self)@ && (e is NotFound <==> !id_taken(
                    old(self)@.notes,
                    id,
                )) && (e is Rejected <==> id_taken(old(self)@.notes, id) && !update_title_ok(
                    old(self)@,
                    id,
                    data@,
                )),
            },
    {
        let i = match self.find_index_by_id(id) {
            Some(i) => i,
            None => {
                return Err(UpdateFailure::NotFound);
            },
        };
        proof {
            let k = index_of_id(self@.notes, id);
            assert(self@.notes[i as int].id == id && self@.notes[k].id == id);
            assert(k == i as int);
        }
        if let Some(t) = &data.title {
            if self.title_used_elsewhere(t, Some(i)) {
                return Err(UpdateFailure::Rejected);
            }
        }
        let ghost pre = self@;
        let current = self.notes.remove(i);
        let patched = patch_note(current, data, now);
        let out = patched.clone();
        self.notes.insert(i, patched);
        proof {
            assert(out@ == spec_patch(pre.notes[i as int], data@, now));
            assert(self@.notes =~= pre.notes.update(i as int, out@));
            assert(self@ =~= spec_update(pre, id, data@, now));
            assert(store_wf(self@)) by {
                assert(forall|j: int|
                    0 <= j < self@.notes.len() && j != i ==> self@.notes[j] == pre.notes[j]);
            }
        }
        Ok(out)
    }

    /// Deletes the note with this identifier, reporting how many notes were
    /// removed: one when it existed, none otherwise.
    pub fn delete(&mut self, id: u128) -> (rows: u64)
        requires
            old(self).wf(),
        ensures
            final(self).wf(),
            id_taken(old(self)@.notes, id) ==> rows == 1 && final(self)@ == spec_delete(
                old(self)@,
                id,
            ),
            !id_taken(old(self)@.notes, id) ==> rows == 0 && final(self)@ == old(self)@,
    {
        match self.find_index_by_id(id) {
            Some(i) => {
                proof {
                    let k = index_of_id(self@.notes, id);
                    assert(self@.notes[i as int].id == id && self@.notes[k].id == id);
                    assert(k == i as int);
                }
                let ghost pre = self@;
                self.notes.remove(i);
                proof {
                    assert(self@.notes =~= pre.notes.remove(i as int));
                    assert(self@ =~= spec_delete(pre, id));
                    assert(store_wf(self@)) by {
                        assert(forall|j: int|
                            0 <= j < self@.notes.len() ==> #[trigger] self@.notes[j] == (if j
                                < i as int {
                                pre.notes[j]
                            } else {
                                pre.notes[j + 1]
                            }));
                    }
                }
                1
            },
            None => 0,
        }
    }
}

} // verus!
