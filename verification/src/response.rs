//! The JSON envelope every endpoint answers with, and the translation of
//! each store outcome into it.  Failure messages are fixed texts: no raw
//! store error detail ever reaches a client.

use vstd::prelude::*;

use crate::note::Note;
use crate::schema::NoteResponse;
use crate::store::{StoreError, UpdateFailure};
use crate::text::{render_u128, spec_decimal};

verus! {

/// The status discriminator of an envelope.
#[derive(Debug, PartialEq, Eq, Structural, Clone, Copy)]
pub enum Status {
    Success,
    Fail,
    Error,
}

impl Status {
    /// The wire text of the discriminator.
    pub fn as_str(&self) -> (r: &'static str)
        ensures
            self is Success ==> r@ == "success"@,
            self is Fail ==> r@ == "fail"@,
            self is Error ==> r@ == "error"@,
    {
        match self {
            Status::Success => "success",
            Status::Fail => "fail",
            Status::Error => "error",
        }
    }
}

/// The not-found message, naming the identifier.
pub open spec fn not_found_message(id: u128) -> Seq<char> {
    "Note with ID: "@ + spec_decimal(id) + " not found"@
}

fn not_found_text(id: u128) -> (s: String)
    ensures
        s@ == not_found_message(id),
{
    let mut s = "Note with ID: ".to_owned();
    let digits = render_u128(id);
    s.push_str(digits.as_str());
    s.push_str(" not found");
    s
}

/// The update fetch-failure message, naming the identifier.
pub open spec fn fetch_failure_message(id: u128) -> Seq<char> {
    "Error while fetching the note with ID: "@ + spec_decimal(id)
}

fn fetch_failure_text(id: u128) -> (s: String)
    ensures
        s@ == fetch_failure_message(id),
{
    let mut s = "Error while fetching the note with ID: ".to_owned();
    let digits = render_u128(id);
    s.push_str(digits.as_str());
    s
}

/// The delete-failure message, naming the identifier.
pub open spec fn delete_failure_message(id: u128) -> Seq<char> {
    "Failed to delete note with ID: "@ + spec_decimal(id)
}

fn delete_failure_text(id: u128) -> (s: String)
    ensures
        s@ == delete_failure_message(id),
{
    let mut s = "Failed to delete note with ID: ".to_owned();
    let digits = render_u128(id);
    s.push_str(digits.as_str());
    s
}

/// The payload of an envelope: nothing, one note, or a list of notes.
#[derive(Debug)]
pub enum ResponseData {
    Empty,
    One(NoteResponse),
    Many(Vec<NoteResponse>),
}

/// One envelope: an HTTP status code, the status discriminator, and the
/// optional payload, message and result count.
#[derive(Debug)]
pub struct ApiResponse {
    pub code: u16,
    pub status: Status,
    pub data: ResponseData,
    pub message: Option<String>,
    pub results: Option<usize>,
}

/// Maps each note of a listing to its wire representation.
fn notes_to_responses(notes: Vec<Note>) -> (r: Vec<NoteResponse>)
    ensures
        r@.len() == notes@.len(),
        forall|i: int| 0 <= i < notes@.len() ==> #[trigger] r@[i]@ == notes@[i]@,
{
    let n = notes.len();
    let mut out: Vec<NoteResponse> = Vec::new();
    let mut i: usize = 0;
    while i < n
        invariant
            n == notes.len(),
            i <= n,
            out@.len() == i,
            forall|j: int| 0 <= j < i ==> #[trigger] out@[j]@ == notes@[j]@,
        decreases n - i,
    {
        out.push(NoteResponse::from_note(notes[i].clone()));
        i += 1;
    }
    out
}

/// The envelope of the listing endpoint.  A successful listing reports a
/// success status with the count and every note; an empty store answers
/// with a message instead of a list; a store failure is a generic error.
pub fn list_response(outcome: Result<Vec<Note>, StoreError>) -> (r: ApiResponse)
    ensures
        match outcome {
            Ok(notes) => r.code == 200 && r.status is Success && (r.results matches Some(c) && c
                == notes@.len()) && (if notes@.len() == 0 {
                r.data is Empty && (r.message matches Some(m) && m@ == "No notes found"@)
            } else {
                (r.data matches ResponseData::Many(v) && v@.len() == notes@.len() && (forall|i: int|
                    0 <= i < notes@.len() ==> #[trigger] v@[i]@ == notes@[i]@)) && r.message
                    is None
            }),
            Err(e) => r.code == 500 && r.status is Fail && r.data is Empty && (r.message
                matches Some(m) && m@ == "Something bad happened while fetching all note items"@)
                && r.results is None,
        },
{
    match outcome {
        Ok(notes) => {
            let count = notes.len();
            if count == 0 {
                ApiResponse {
                    code: 200,
                    status: Status::Success,
                    data: ResponseData::Empty,
                    message: Some("No notes found".to_owned()),
                    results: Some(count),
                }
            } else {
                ApiResponse {
                    code: 200,
                    status: Status::Success,
                    data: ResponseData::Many(notes_to_responses(notes)),
                    message: None,
                    results: Some(count),
                }
            }
        },
        Err(_) => ApiResponse {
            code: 500,
            status: Status::Fail,
            data: ResponseData::Empty,
            message: Some("Something bad happened while fetching all note items".to_owned()),
            results: None,
        },
    }
}

/// The envelope of the fetch-by-identifier endpoint.
pub fn get_response(id: u128, outcome: Result<Option<Note>, StoreError>) -> (r: ApiResponse)
    ensures
        match outcome {
            Ok(found) => match found {
                Some(n) => r.code == 200 && r.status is Success && (r.data matches ResponseData::One(d) && d@
                    == n@) && r.message is None && r.results is None,
                None => r.code == 404 && r.status is Fail && r.data is Empty && (r.message
                    matches Some(m) && m@ == not_found_message(id)) && r.results is None,
            },
            Err(e) => r.code == 500 && r.status is Fail && r.data is Empty && (r.message
                matches Some(m) && m@ == "Something went wrong while fetching the note"@)
                && r.results is None,
        },
{
    match outcome {
        Ok(Some(n)) => ApiResponse {
            code: 200,
            status: Status::Success,
            data: ResponseData::One(NoteResponse::from_note(n)),
            message: None,
            results: None,
        },
        Ok(None) => ApiResponse {
            code: 404,
            status: Status::Fail,
            data: ResponseData::Empty,
            message: Some(not_found_text(id)),
            results: None,
        },
        Err(_) => ApiResponse {
            code: 500,
            status: Status::Fail,
            data: ResponseData::Empty,
            message: Some("Something went wrong while fetching the note".to_owned()),
            results: None,
        },
    }
}

/// The envelope of the creation endpoint: created on success, a conflict
/// when the title is taken, and a generic error otherwise.
pub fn create_response(outcome: Result<Note, StoreError>) -> (r: ApiResponse)
    ensures
        match outcome {
            Ok(n) => r.code == 201 && r.status is Success && (r.data matches ResponseData::One(d) && d@ == n@)
                && r.message is None && r.results is None,
            Err(e) => r.data is Empty && r.results is None && (match e {
                StoreError::Conflict => r.code == 409 && r.status is Fail && (r.message
                    matches Some(m) && m@ == "Note with that title already exists"@),
                StoreError::Other => r.code == 500 && r.status is Error && (r.message
                    matches Some(m) && m@ == "Something went wrong while creating the note"@),
            }),
        },
{
    match outcome {
        Ok(n) => ApiResponse {
            code: 201,
            status: Status::Success,
            data: ResponseData::One(NoteResponse::from_note(n)),
            message: None,
            results: None,
        },
        Err(StoreError::Conflict) => ApiResponse {
            code: 409,
            status: Status::Fail,
            data: ResponseData::Empty,
            message: Some("Note with that title already exists".to_owned()),
            results: None,
        },
        Err(StoreError::Other) => ApiResponse {
            code: 500,
            status: Status::Error,
            data: ResponseData::Empty,
            message: Some("Something went wrong while creating the note".to_owned()),
            results: None,
        },
    }
}

/// The envelope of the update endpoint: the updated note on success, a
/// distinct not-found answer for an absent identifier, a failure answer for
/// a rejected write, and an error answer, naming the identifier, when the
/// initial fetch of the note failed.
pub fn update_response(id: u128, outcome: Result<Note, UpdateFailure>) -> (r: ApiResponse)
    ensures
        match outcome {
            Ok(n) => r.code == 200 && r.status is Success && (r.data matches ResponseData::One(d) && d@ == n@)
                && r.message is None && r.results is None,
            Err(e) => r.data is Empty && r.results is None && (match e {
                UpdateFailure::NotFound => r.code == 404 && r.status is Fail && (r.message
                    matches Some(m) && m@ == not_found_message(id)),
                UpdateFailure::Rejected => r.code == 500 && r.status is Fail && (r.message
                    matches Some(m) && m@ == "Failed to update the note"@),
                UpdateFailure::FetchFailed => r.code == 500 && r.status is Error && (r.message
                    matches Some(m) && m@ == fetch_failure_message(id)),
            }),
        },
{
    match outcome {
        Ok(n) => ApiResponse {
            code: 200,
            status: Status::Success,
            data: ResponseData::One(NoteResponse::from_note(n)),
            message: None,
            results: None,
        },
        Err(UpdateFailure::NotFound) => ApiResponse {
            code: 404,
            status: Status::Fail,
            data: ResponseData::Empty,
            message: Some(not_found_text(id)),
            results: None,
        },
        Err(UpdateFailure::Rejected) => ApiResponse {
            code: 500,
            status: Status::Fail,
            data: ResponseData::Empty,
            message: Some("Failed to update the note".to_owned()),
            results: None,
        },
        Err(UpdateFailure::FetchFailed) => ApiResponse {
            code: 500,
            status: Status::Error,
            data: ResponseData::Empty,
            message: Some(fetch_failure_text(id)),
            results: None,
        },
    }
}

/// The envelope of the deletion endpoint: an empty no-content answer when a
/// note was removed, a distinct not-found answer when none carried the
/// identifier, and a generic error on a store failure.
pub fn delete_response(id: u128, outcome: Result<u64, StoreError>) -> (r: ApiResponse)
    ensures
        match outcome {
            Ok(rows) => if rows == 0 {
                r.code == 404 && r.status is Fail && r.data is Empty && (r.message
                    matches Some(m) && m@ == not_found_message(id)) && r.results is None
            } else {
                r.code == 204 && r.status is Success && r.data is Empty && r.message is None
                    && r.results is None
            },
            Err(e) => r.code == 500 && r.status is Error && r.data is Empty && (r.message
                matches Some(m) && m@ == delete_failure_message(id)) && r.results is None,
        },
{
    match outcome {
        Ok(rows) => {
            if rows == 0 {
                ApiResponse {
                    code: 404,
                    status: Status::Fail,
                    data: ResponseData::Empty,
                    message: Some(not_found_text(id)),
                    results: None,
                }
            } else {
                ApiResponse {
                    code: 204,
                    status: Status::Success,
                    data: ResponseData::Empty,
                    message: None,
                    results: None,
                }
            }
        },
        Err(_) => ApiResponse {
            code: 500,
            status: Status::Error,
            data: ResponseData::Empty,
            message: Some(delete_failure_text(id)),
            results: None,
        },
    }
}

} // verus!
