//! The note entity and its mathematical model.

use vstd::prelude::*;

verus! {

/// A point in time with a fixed timezone offset, as the store hands it out:
/// seconds since the Unix epoch, a sub-second nanosecond part, and the
/// offset from UTC in seconds.
#[derive(Clone, Copy, PartialEq, Eq, Structural, Debug)]
pub struct Timestamp {
    pub unix_seconds: i64,
    pub subsec_nanos: u32,
    pub offset_seconds: i32,
}

/// The view of an optional piece of text.
pub open spec fn opt_text_view(o: Option<String>) -> Option<Seq<char>> {
    match o {
        Some(s) => Some(s@),
        None => None,
    }
}

/// Clones an optional piece of text, keeping its view.
pub fn clone_opt_string(o: &Option<String>) -> (r: Option<String>)
    ensures
        opt_text_view(r) == opt_text_view(*o),
{
    match o {
        Some(s) => Some(s.clone()),
        None => None,
    }
}

/// One stored note.  The identifier is assigned by the store on creation and
/// never changes; the timestamps are set by the store on insert and update.
#[derive(Debug)]
pub struct Note {
    pub id: u128,
    pub title: String,
    pub content: String,
    pub category: Option<String>,
    pub published: Option<bool>,
    pub created_at: Option<Timestamp>,
    pub updated_at: Option<Timestamp>,
}

/// The mathematical model of a note: its text fields as character sequences.
#[verifier::ext_equal]
pub ghost struct NoteModel {
    pub id: u128,
    pub title: Seq<char>,
    pub content: Seq<char>,
    pub category: Option<Seq<char>>,
    pub published: Option<bool>,
    pub created_at: Option<Timestamp>,
    pub updated_at: Option<Timestamp>,
}

impl View for Note {
    type V = NoteModel;

    open spec fn view(&self) -> NoteModel {
        NoteModel {
            id: self.id,
            title: self.title@,
            content: self.content@,
            category: opt_text_view(self.category),
            published: self.published,
            created_at: self.created_at,
            updated_at: self.updated_at,
        }
    }
}

impl Clone for Note {
    /// A cloned note carries the same model as the original.
    fn clone(&self) -> (r: Self)
        ensures
            r@ == self@,
    {
        Note {
            id: self.id,
            title: self.title.clone(),
            content: self.content.clone(),
            category: clone_opt_string(&self.category),
            published: self.published,
            created_at: self.created_at,
            updated_at: self.updated_at,
        }
    }
}

} // verus!
