use note_service::handler::{
    handle_create, handle_delete, handle_find_all, handle_find_by_id, handle_update,
};
use note_service::note::{Note, Timestamp};
use note_service::response::{
    create_response, delete_response, get_response, list_response, update_response, ResponseData,
    Status,
};
use note_service::schema::{CreateNoteSchema, FilterOptions, NoteResponse, UpdateNoteSchema};
use note_service::store::{patch_note, NoteStore, StoreError, UpdateFailure};
use note_service::text::render_u128;

fn ts(seconds: i64) -> Timestamp {
    Timestamp {
        unix_seconds: seconds,
        subsec_nanos: 0,
        offset_seconds: 0,
    }
}

fn create_req(title: &str, content: &str, category: Option<&str>) -> CreateNoteSchema {
    CreateNoteSchema {
        title: title.to_owned(),
        content: content.to_owned(),
        category: category.map(|c| c.to_owned()),
        published: None,
    }
}

fn no_update() -> UpdateNoteSchema {
    UpdateNoteSchema {
        title: None,
        content: None,
        category: None,
        published: None,
    }
}

#[test]
fn create_returns_supplied_fields_and_fresh_id() {
    let mut store = NoteStore::new();
    let note = store
        .insert(create_req("Groceries", "milk and eggs", Some("home")), ts(100))
        .unwrap();
    assert_eq!(note.id, 1);
    assert_eq!(note.title, "Groceries");
    assert_eq!(note.content, "milk and eggs");
    assert_eq!(note.category, Some("home".to_owned()));
    assert_eq!(note.published, None);
    assert_eq!(note.created_at, Some(ts(100)));
    assert_eq!(note.updated_at, Some(ts(100)));
    assert_eq!(store.count(), 1);
}

#[test]
fn create_assigns_distinct_ids() {
    let mut store = NoteStore::new();
    let first = store.insert(create_req("a", "1", None), ts(1)).unwrap();
    let second = store.insert(create_req("b", "2", None), ts(2)).unwrap();
    assert_ne!(first.id, second.id);
    assert_eq!(second.id, 2);
}

#[test]
fn create_does_not_persist_published() {
    let mut store = NoteStore::new();
    let mut req = create_req("draft", "text", None);
    req.published = Some(true);
    let note = store.insert(req, ts(5)).unwrap();
    assert_eq!(note.published, None);
}

#[test]
fn duplicate_title_conflicts_and_adds_no_row() {
    let mut store = NoteStore::new();
    store.insert(create_req("unique", "first", None), ts(1)).unwrap();
    let second = store.insert(create_req("unique", "second", None), ts(2));
    assert_eq!(second.unwrap_err(), StoreError::Conflict);
    assert_eq!(store.count(), 1);
}

#[test]
fn duplicate_title_envelope_is_conflict() {
    let mut store = NoteStore::new();
    store.insert(create_req("unique", "first", None), ts(1)).unwrap();
    let r = handle_create(&mut store, create_req("unique", "second", None), ts(2));
    assert_eq!(r.code, 409);
    assert_eq!(r.status, Status::Fail);
    assert_eq!(r.message, Some("Note with that title already exists".to_owned()));
    assert_eq!(store.count(), 1);
}

#[test]
fn fetch_missing_then_created() {
    let mut store = NoteStore::new();
    assert!(store.find_by_id(42).is_none());
    let r = handle_find_by_id(&store, 42);
    assert_eq!(r.code, 404);
    assert_eq!(r.status, Status::Fail);
    assert_eq!(r.message, Some("Note with ID: 42 not found".to_owned()));

    let created = store
        .insert(create_req("kept", "as written", Some("k")), ts(9))
        .unwrap();
    let fetched = store.find_by_id(created.id).unwrap();
    assert_eq!(fetched.id, created.id);
    assert_eq!(fetched.title, "kept");
    assert_eq!(fetched.content, "as written");
    assert_eq!(fetched.category, Some("k".to_owned()));
    assert_eq!(fetched.created_at, Some(ts(9)));

    let r = handle_find_by_id(&store, created.id);
    assert_eq!(r.code, 200);
    assert_eq!(r.status, Status::Success);
    match r.data {
        ResponseData::One(d) => assert_eq!(d.title, "kept"),
        _ => panic!("expected a single note"),
    }
}

#[test]
fn update_content_only_changes_only_content() {
    let mut store = NoteStore::new();
    let created = store
        .insert(create_req("stable title", "old content", Some("cat")), ts(10))
        .unwrap();
    let mut req = no_update();
    req.content = Some("new content".to_owned());
    let updated = store.update(created.id, req, ts(20)).unwrap();
    assert_eq!(updated.id, created.id);
    assert_eq!(updated.title, "stable title");
    assert_eq!(updated.content, "new content");
    assert_eq!(updated.category, Some("cat".to_owned()));
    assert_eq!(updated.published, None);
    assert_eq!(updated.created_at, Some(ts(10)));
    assert_eq!(updated.updated_at, Some(ts(20)));

    let fetched = store.find_by_id(created.id).unwrap();
    assert_eq!(fetched.title, "stable title");
    assert_eq!(fetched.content, "new content");
}

#[test]
fn update_sets_each_provided_field() {
    let mut store = NoteStore::new();
    let created = store.insert(create_req("before", "text", None), ts(1)).unwrap();
    let req = UpdateNoteSchema {
        title: Some("after".to_owned()),
        content: Some("more".to_owned()),
        category: Some("new cat".to_owned()),
        published: Some(true),
    };
    let updated = store.update(created.id, req, ts(2)).unwrap();
    assert_eq!(updated.title, "after");
    assert_eq!(updated.content, "more");
    assert_eq!(updated.category, Some("new cat".to_owned()));
    assert_eq!(updated.published, Some(true));
}

#[test]
fn update_missing_id_is_not_found() {
    let mut store = NoteStore::new();
    let outcome = store.update(7, no_update(), ts(1));
    assert_eq!(outcome.unwrap_err(), UpdateFailure::NotFound);
    let r = handle_update(&mut store, 7, no_update(), ts(1));
    assert_eq!(r.code, 404);
    assert_eq!(r.status, Status::Fail);
    assert_eq!(r.message, Some("Note with ID: 7 not found".to_owned()));
}

#[test]
fn update_to_taken_title_is_rejected() {
    let mut store = NoteStore::new();
    store.insert(create_req("first", "1", None), ts(1)).unwrap();
    let second = store.insert(create_req("second", "2", None), ts(2)).unwrap();
    let mut req = no_update();
    req.title = Some("first".to_owned());
    let outcome = store.update(second.id, req, ts(3));
    assert_eq!(outcome.unwrap_err(), UpdateFailure::Rejected);
    let fetched = store.find_by_id(second.id).unwrap();
    assert_eq!(fetched.title, "second");
}

#[test]
fn update_may_keep_its_own_title() {
    let mut store = NoteStore::new();
    let created = store.insert(create_req("same", "1", None), ts(1)).unwrap();
    let mut req = no_update();
    req.title = Some("same".to_owned());
    let updated = store.update(created.id, req, ts(2)).unwrap();
    assert_eq!(updated.title, "same");
}

#[test]
fn delete_twice_reports_not_found_second_time() {
    let mut store = NoteStore::new();
    let created = store.insert(create_req("gone soon", "x", None), ts(1)).unwrap();
    let first = handle_delete(&mut store, created.id);
    assert_eq!(first.code, 204);
    assert_eq!(first.status, Status::Success);
    assert!(matches!(first.data, ResponseData::Empty));
    assert_eq!(first.message, None);
    let second = handle_delete(&mut store, created.id);
    assert_eq!(second.code, 404);
    assert_eq!(second.status, Status::Fail);
    assert_eq!(second.message, Some("Note with ID: 1 not found".to_owned()));
}

#[test]
fn delete_rows_affected() {
    let mut store = NoteStore::new();
    let created = store.insert(create_req("t", "c", None), ts(1)).unwrap();
    assert_eq!(store.delete(created.id), 1);
    assert_eq!(store.delete(created.id), 0);
    assert_eq!(store.count(), 0);
}

#[test]
fn listing_after_creating_three_returns_all() {
    let mut store = NoteStore::new();
    for (i, title) in ["one", "two", "three"].iter().enumerate() {
        store
            .insert(create_req(title, "body", None), ts(i as i64))
            .unwrap();
    }
    let r = handle_find_all(&store, FilterOptions::default());
    assert_eq!(r.code, 200);
    assert_eq!(r.status, Status::Success);
    assert_eq!(r.results, Some(3));
    match r.data {
        ResponseData::Many(list) => {
            assert_eq!(list.len(), 3);
            for title in ["one", "two", "three"] {
                assert!(list.iter().any(|n| n.title == title));
            }
        }
        _ => panic!("expected a list of notes"),
    }
}

#[test]
fn listing_empty_store_says_so() {
    let store = NoteStore::new();
    let r = handle_find_all(&store, FilterOptions::default());
    assert_eq!(r.code, 200);
    assert_eq!(r.status, Status::Success);
    assert_eq!(r.results, Some(0));
    assert!(matches!(r.data, ResponseData::Empty));
    assert_eq!(r.message, Some("No notes found".to_owned()));
}

#[test]
fn listing_ignores_pagination_options() {
    let mut store = NoteStore::new();
    store.insert(create_req("a", "1", None), ts(1)).unwrap();
    store.insert(create_req("b", "2", None), ts(2)).unwrap();
    let opts = FilterOptions {
        page: Some(1),
        limit: Some(1),
    };
    let r = handle_find_all(&store, opts);
    assert_eq!(r.results, Some(2));
}

#[test]
fn list_envelope_on_store_failure() {
    let r = list_response(Err(StoreError::Other));
    assert_eq!(r.code, 500);
    assert_eq!(r.status, Status::Fail);
    assert_eq!(
        r.message,
        Some("Something bad happened while fetching all note items".to_owned())
    );
    assert_eq!(r.results, None);
}

#[test]
fn get_envelope_on_store_failure() {
    let r = get_response(1, Err(StoreError::Other));
    assert_eq!(r.code, 500);
    assert_eq!(r.status, Status::Fail);
    assert_eq!(
        r.message,
        Some("Something went wrong while fetching the note".to_owned())
    );
}

#[test]
fn create_envelope_on_other_store_failure() {
    let r = create_response(Err(StoreError::Other));
    assert_eq!(r.code, 500);
    assert_eq!(r.status, Status::Error);
    assert_eq!(
        r.message,
        Some("Something went wrong while creating the note".to_owned())
    );
}

#[test]
fn update_envelope_on_rejected_write() {
    let r = update_response(3, Err(UpdateFailure::Rejected));
    assert_eq!(r.code, 500);
    assert_eq!(r.status, Status::Fail);
    assert_eq!(r.message, Some("Failed to update the note".to_owned()));
}

#[test]
fn update_envelope_on_fetch_failure() {
    let r = update_response(9, Err(UpdateFailure::FetchFailed));
    assert_eq!(r.code, 500);
    assert_eq!(r.status, Status::Error);
    assert_eq!(
        r.message,
        Some("Error while fetching the note with ID: 9".to_owned())
    );
}

#[test]
fn delete_envelope_on_store_failure() {
    let r = delete_response(5, Err(StoreError::Other));
    assert_eq!(r.code, 500);
    assert_eq!(r.status, Status::Error);
    assert_eq!(
        r.message,
        Some("Failed to delete note with ID: 5".to_owned())
    );
}

#[test]
fn identifiers_render_in_decimal() {
    assert_eq!(render_u128(0), "0");
    assert_eq!(render_u128(7), "7");
    assert_eq!(render_u128(10), "10");
    assert_eq!(render_u128(1234567890123), "1234567890123");
    assert_eq!(render_u128(u128::MAX), "340282366920938463463374607431768211455");
}

#[test]
fn patch_note_applies_only_present_fields() {
    let note = Note {
        id: 11,
        title: "kept title".to_owned(),
        content: "old".to_owned(),
        category: Some("c".to_owned()),
        published: Some(false),
        created_at: Some(ts(1)),
        updated_at: Some(ts(1)),
    };
    let mut req = no_update();
    req.content = Some("new".to_owned());
    let patched = patch_note(note, req, ts(2));
    assert_eq!(patched.id, 11);
    assert_eq!(patched.title, "kept title");
    assert_eq!(patched.content, "new");
    assert_eq!(patched.category, Some("c".to_owned()));
    assert_eq!(patched.published, Some(false));
    assert_eq!(patched.created_at, Some(ts(1)));
    assert_eq!(patched.updated_at, Some(ts(2)));
}

#[test]
fn status_wire_text() {
    assert_eq!(Status::Success.as_str(), "success");
    assert_eq!(Status::Fail.as_str(), "fail");
    assert_eq!(Status::Error.as_str(), "error");
}

#[test]
fn note_response_copies_every_field() {
    let mut store = NoteStore::new();
    let note = store
        .insert(create_req("mapped", "body", Some("c")), ts(3))
        .unwrap();
    let response = NoteResponse::from_note(note.clone());
    assert_eq!(response.id, note.id);
    assert_eq!(response.title, note.title);
    assert_eq!(response.content, note.content);
    assert_eq!(response.category, note.category);
    assert_eq!(response.published, note.published);
    assert_eq!(response.created_at, note.created_at);
    assert_eq!(response.updated_at, note.updated_at);
}

#[test]
fn filter_options_default_is_empty() {
    let opts = FilterOptions::default();
    assert_eq!(opts.page, None);
    assert_eq!(opts.limit, None);
}
