//! Wire-shaped request and response records of the HTTP surface.

use vstd::prelude::*;

use crate::note::{opt_text_view, Note, NoteModel, Timestamp};

verus! {

/// Pagination options accepted by the listing endpoint.  They are accepted
/// but never applied: every listing returns all notes.
#[derive(Debug)]
pub struct FilterOptions {
    pub page: Option<usize>,
    pub limit: Option<usize>,
}

impl Default for FilterOptions {
    /// The default asks for no particular page and no limit.
    fn default() -> (r: Self)
        ensures
            r.page is None,
            r.limit is None,
    {
        FilterOptions { page: None, limit: None }
    }
}

/// A raw path parameter carrying a note identifier as text.
#[derive(Debug)]
pub struct ParamOption {
    pub id: String,
}

/// The body of a creation request.  `published` is accepted in the shape but
/// is not persisted by the creation path; a fresh note starts unpublished.
#[derive(Debug)]
pub struct CreateNoteSchema {
    pub title: String,
    pub content: String,
    pub category: Option<String>,
    pub published: Option<bool>,
}

/// The model of a creation request.
#[verifier::ext_equal]
pub ghost struct CreateModel {
    pub title: Seq<char>,
    pub content: Seq<char>,
    pub category: Option<Seq<char>>,
    pub published: Option<bool>,
}

impl View for CreateNoteSchema {
    type V = CreateModel;

    open spec fn view(&self) -> CreateModel {
        CreateModel {
            title: self.title@,
            content: self.content@,
            category: opt_text_view(self.category),
            published: self.published,
        }
    }
}

/// The body of a partial update: a field that is absent is left unchanged.
#[derive(Debug)]
pub struct UpdateNoteSchema {
    pub title: Option<String>,
    pub content: Option<String>,
    pub category: Option<String>,
    pub published: Option<bool>,
}

/// The model of a partial update request.
#[verifier::ext_equal]
pub ghost struct UpdateModel {
    pub title: Option<Seq<char>>,
    pub content: Option<Seq<char>>,
    pub category: Option<Seq<char>>,
    pub published: Option<bool>,
}

impl View for UpdateNoteSchema {
    type V = UpdateModel;

    open spec fn view(&self) -> UpdateModel {
        UpdateModel {
            title: opt_text_view(self.title),
            content: opt_text_view(self.content),
            category: opt_text_view(self.category),
            published: self.published,
        }
    }
}

/// The outward-facing representation of a note: a field-for-field copy of
/// the stored entity, so it shares the entity's model.
#[derive(Debug)]
pub struct NoteResponse {
    pub id: u128,
    pub title: String,
    pub content: String,
    pub category: Option<String>,
    pub published: Option<bool>,
    pub created_at: Option<Timestamp>,
    pub updated_at: Option<Timestamp>,
}

impl View for NoteResponse {
    type V = NoteModel;

    open spec fn view(&self) -> NoteModel {
        NoteModel {
            id: self.id,
            title: self.title@,
            content: self.content@,
            category: opt_text_view(self.category),
            published: self.published,
            created_at: self.created_at,
            updated_at: self.updated_at,
        }
    }
}

impl NoteResponse {
    /// The entity-to-wire mapping: a one-to-one field copy.
    pub fn from_note(n: Note) -> (r: NoteResponse)
        ensures
            r@ == n@,
    {
        NoteResponse {
            id: n.id,
            title: n.title,
            content: n.content,
            category: n.category,
            published: n.published,
            created_at: n.created_at,
            updated_at: n.updated_at,
        }
    }
}

} // verus!
