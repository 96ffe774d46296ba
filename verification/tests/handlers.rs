use notes_api::handler::{
    delete_note, get_note_by_id, get_notes_list, healthcheck, note_error_message,
    note_error_status, post_note, update_note, ApiBody, ApiResponse,
};
use notes_api::model::{get_notes, CreateNote, Note, NoteError, NoteStore};

fn new_input(title: &str, content: &str) -> CreateNote {
    CreateNote { title: title.to_string(), content: content.to_string() }
}

fn id_path(id: u128) -> String {
    uuid::Uuid::from_u128(id).hyphenated().to_string()
}

fn message_of(r: &ApiResponse) -> &str {
    match &r.body {
        ApiBody::Message(m) => m.as_str(),
        _ => panic!("expected a message body"),
    }
}

fn note_of(r: ApiResponse) -> Note {
    match r.body {
        ApiBody::OneNote(n) => n,
        _ => panic!("expected a note body"),
    }
}

#[test]
fn healthcheck_returns_ok_data() {
    let r = healthcheck();
    assert_eq!(r.status, 200);
    match r.body {
        ApiBody::Data(d) => assert_eq!(d, "OK"),
        _ => panic!("expected a data body"),
    }
}

#[test]
fn list_handler_returns_all_notes() {
    let mut store = NoteStore::new();
    let r = get_notes_list(&store);
    assert_eq!(r.status, 200);
    match r.body {
        ApiBody::NoteList(v) => assert!(v.is_empty()),
        _ => panic!("expected a list body"),
    }

    let created = post_note(&mut store, new_input("alpha", "1"));
    assert_eq!(created.status, 201);
    let r = get_notes_list(&store);
    assert_eq!(r.status, 200);
    match r.body {
        ApiBody::NoteList(v) => {
            assert_eq!(v.len(), 1);
            assert_eq!(v[0].title, "alpha");
        },
        _ => panic!("expected a list body"),
    }
}

#[test]
fn post_duplicate_title_maps_to_422() {
    let mut store = NoteStore::new();
    assert_eq!(post_note(&mut store, new_input("same", "x")).status, 201);

    let r = post_note(&mut store, new_input("same", "y"));
    assert_eq!(r.status, 422);
    assert_eq!(message_of(&r), "title must be unique");
    assert_eq!(get_notes(&store).unwrap().len(), 1);
}

#[test]
fn get_unknown_id_maps_to_404() {
    let store = NoteStore::new();
    let r = get_note_by_id(&store, "6f845dfe-fa30-45eb-89fb-aa15de682a26");
    assert_eq!(r.status, 404);
    assert_eq!(message_of(&r), "Note not found");
}

#[test]
fn malformed_id_short_circuits_get() {
    let store = NoteStore::new();
    let r = get_note_by_id(&store, "not-a-uuid");
    assert_eq!(r.status, 400);
    assert_eq!(message_of(&r), "The ID provided is not valid UUID");
}

#[test]
fn malformed_id_short_circuits_update_and_delete() {
    let mut store = NoteStore::new();
    let created = note_of(post_note(&mut store, new_input("kept", "text")));

    let r = update_note(&mut store, "not-a-uuid", new_input("other", "other"));
    assert_eq!(r.status, 400);
    assert_eq!(message_of(&r), "The ID provided is not valid UUID");

    let r = delete_note(&mut store, "not-a-uuid");
    assert_eq!(r.status, 400);
    assert_eq!(message_of(&r), "The ID provided is not valid UUID");

    let notes = get_notes(&store).unwrap();
    assert_eq!(notes.len(), 1);
    assert_eq!(notes[0].id, created.id);
    assert_eq!(notes[0].title, "kept");
    assert_eq!(notes[0].content, "text");
}

#[test]
fn update_conflicting_title_maps_to_500() {
    let mut store = NoteStore::new();
    let _ = note_of(post_note(&mut store, new_input("taken", "")));
    let second = note_of(post_note(&mut store, new_input("free", "")));

    let r = update_note(&mut store, &id_path(second.id), new_input("taken", ""));
    assert_eq!(r.status, 500);
    assert_eq!(message_of(&r), "Something went wrong");
}

#[test]
fn error_mapping_table_is_exact() {
    assert_eq!(note_error_status(&NoteError::NotFound), 404);
    assert_eq!(note_error_status(&NoteError::Conflict), 422);
    assert_eq!(note_error_status(&NoteError::InvalidInput), 400);
    assert_eq!(note_error_status(&NoteError::StoreFailure), 500);

    assert_eq!(note_error_message(&NoteError::NotFound), "Note not found");
    assert_eq!(note_error_message(&NoteError::Conflict), "title must be unique");
    assert_eq!(
        note_error_message(&NoteError::InvalidInput),
        "The ID provided is not valid UUID"
    );
    assert_eq!(note_error_message(&NoteError::StoreFailure), "Something went wrong");
}

#[test]
fn end_to_end_crud_scenario() {
    let mut store = NoteStore::new();

    // POST {"title":"A","content":"B"} -> 201 with a generated id
    let created = post_note(&mut store, new_input("A", "B"));
    assert_eq!(created.status, 201);
    let note = note_of(created);
    assert_eq!(note.title, "A");
    assert_eq!(note.content, "B");
    assert_eq!(note.created_at, note.updated_at);
    let path = id_path(note.id);

    // GET that id -> 200 with the same fields
    let got = get_note_by_id(&store, &path);
    assert_eq!(got.status, 200);
    let fetched = note_of(got);
    assert_eq!(fetched.id, note.id);
    assert_eq!(fetched.title, "A");
    assert_eq!(fetched.content, "B");

    // PATCH the same id with {"title":"A","content":"C"} -> 200
    let updated = update_note(&mut store, &path, new_input("A", "C"));
    assert_eq!(updated.status, 200);
    assert_eq!(message_of(&updated), "Note updated");

    // GET now shows content == "C", with id and created_at unchanged
    let fetched = note_of(get_note_by_id(&store, &path));
    assert_eq!(fetched.content, "C");
    assert_eq!(fetched.title, "A");
    assert_eq!(fetched.id, note.id);
    assert_eq!(fetched.created_at, note.created_at);
    assert!(fetched.updated_at >= note.updated_at);

    // DELETE the same id -> 200, then GET -> 404
    let deleted = delete_note(&mut store, &path);
    assert_eq!(deleted.status, 200);
    assert_eq!(message_of(&deleted), "Note deleted");

    let after = get_note_by_id(&store, &path);
    assert_eq!(after.status, 404);
    assert_eq!(message_of(&after), "Note not found");
}
