//! Request-level logic: one handler per HTTP operation. Each validates its
//! input, invokes exactly one repository operation, and maps the outcome to
//! an HTTP status code and a response body shape. Serialising the body to
//! JSON text is left to the unverified rim around the library.
use crate::ext;
use crate::model;
use crate::model::{
    contains_id, contains_title, create_note, get_notes, get_one_note, title_held_elsewhere,
    CreateNote, Note, NoteError, NoteStore,
};
use vstd::prelude::*;
use vstd::string::StringExecFns;

verus! {

/// The body of a response, by shape. `Data` carries `{"data": <text>}`,
/// `NoteList` carries `{"data": [<note>, ...]}`, `OneNote` the full note
/// shape, and `Message` carries `{"message": <text>}`.
pub enum ApiBody {
    Data(String),
    NoteList(Vec<Note>),
    OneNote(Note),
    Message(String),
}

/// One HTTP response: the status code and the body to serialise.
pub struct ApiResponse {
    pub status: u16,
    pub body: ApiBody,
}

/// The one status code owed to each failure kind: absent target 404,
/// uniqueness conflict 422, malformed input 400, anything else 500.
pub fn note_error_status(e: &NoteError) -> (s: u16)
    ensures
        s == match *e {
            NoteError::NotFound => 404u16,
            NoteError::Conflict => 422u16,
            NoteError::InvalidInput => 400u16,
            NoteError::StoreFailure => 500u16,
        },
{
    match e {
        NoteError::NotFound => 404,
        NoteError::Conflict => 422,
        NoteError::InvalidInput => 400,
        NoteError::StoreFailure => 500,
    }
}

/// The message text owed to each failure kind.
pub fn note_error_message(e: &NoteError) -> (m: String)
    ensures
        m@ == match *e {
            NoteError::NotFound => "Note not found"@,
            NoteError::Conflict => "title must be unique"@,
            NoteError::InvalidInput => "The ID provided is not valid UUID"@,
            NoteError::StoreFailure => "Something went wrong"@,
        },
{
    match e {
        NoteError::NotFound => String::from_str("Note not found"),
        NoteError::Conflict => String::from_str("title must be unique"),
        NoteError::InvalidInput => String::from_str("The ID provided is not valid UUID"),
        NoteError::StoreFailure => String::from_str("Something went wrong"),
    }
}

/// The response for a failure kind: its status code and its message body.
pub fn error_response(e: &NoteError) -> (r: ApiResponse)
    ensures
        r.status == note_error_status_spec(*e),
        r.body matches ApiBody::Message(m) && m@ == note_error_message_spec(*e),
{
    ApiResponse { status: note_error_status(e), body: ApiBody::Message(note_error_message(e)) }
}

/// The status each failure kind maps to.
pub open spec fn note_error_status_spec(e: NoteError) -> u16 {
    match e {
        NoteError::NotFound => 404u16,
        NoteError::Conflict => 422u16,
        NoteError::InvalidInput => 400u16,
        NoteError::StoreFailure => 500u16,
    }
}

/// The message each failure kind maps to.
pub open spec fn note_error_message_spec(e: NoteError) -> Seq<char> {
    match e {
        NoteError::NotFound => "Note not found"@,
        NoteError::Conflict => "title must be unique"@,
        NoteError::InvalidInput => "The ID provided is not valid UUID"@,
        NoteError::StoreFailure => "Something went wrong"@,
    }
}

/// The 128-bit value of a path segment that parses as a UUID.
pub open spec fn path_id(id: Seq<char>) -> u128 {
    ext::uuid_of_str(id)->0
}

/// The health check: always 200 with `{"data":"OK"}`.
pub fn healthcheck() -> (r: ApiResponse)
    ensures
        r.status == 200,
        r.body matches ApiBody::Data(d) && d@ == "OK"@,
{
    ApiResponse { status: 200, body: ApiBody::Data(String::from_str("OK")) }
}

/// Lists every note: 200 with one entry per stored note, in store order;
/// the empty store yields the empty list.
pub fn get_notes_list(store: &NoteStore) -> (r: ApiResponse)
    requires
        store.wf(),
    ensures
        r.status == 200,
        r.body matches ApiBody::NoteList(v) && v@ == store@,
{
    match get_notes(store) {
        Ok(v) => ApiResponse { status: 200, body: ApiBody::NoteList(v) },
        Err(e) => error_response(&e),
    }
}

/// Creates a note from the request body: 201 with the created note, or 422
/// with the conflict message when the title is already taken.
pub fn post_note(store: &mut NoteStore, payload: CreateNote) -> (r: ApiResponse)
    requires
        old(store).wf(),
    ensures
        final(store).wf(),
        r.status == 201 || r.status == 422,
        r.status == 201 ==> (r.body matches ApiBody::OneNote(n) && n.title@ == payload.title@
            && n.content@ == payload.content@ && n.created_at == n.updated_at && (n.id >> 76) & 0xf
            == 4 && (n.id >> 62) & 0x3 == 2 && !contains_id(old(store)@, n.id) && !contains_title(
            old(store)@,
            n.title@,
        ) && final(store)@ == old(store)@.push(n)),
        r.status == 422 ==> (final(store)@ == old(store)@ && (r.body matches ApiBody::Message(m)
            && m@ == "title must be unique"@)),
        contains_title(old(store)@, payload.title@) ==> r.status == 422,
        r.status == 422 ==> contains_title(old(store)@, payload.title@) || old(store)@.len() > 0,
{
    match create_note(store, payload) {
        Ok(note) => ApiResponse { status: 201, body: ApiBody::OneNote(note) },
        Err(e) => error_response(&e),
    }
}

/// Reads one note by the path's id segment. A segment that is no UUID
/// short-circuits to 400 before the repository is consulted; an absent id is
/// 404; otherwise 200 with the stored note.
pub fn get_note_by_id(store: &NoteStore, id: &str) -> (r: ApiResponse)
    requires
        store.wf(),
    ensures
        ext::uuid_of_str(id@) is None ==> (r.status == 400 && (r.body matches ApiBody::Message(m)
            && m@ == "The ID provided is not valid UUID"@)),
        (ext::uuid_of_str(id@) is Some && contains_id(store@, path_id(id@))) ==> (r.status == 200
            && (r.body matches ApiBody::OneNote(n) && n.id == path_id(id@) && forall|i: int|
                0 <= i < store@.len() && store@[i].id == path_id(id@) ==> store@[i] == n)),
        (ext::uuid_of_str(id@) is Some && !contains_id(store@, path_id(id@))) ==> (r.status == 404
            && (r.body matches ApiBody::Message(m) && m@ == "Note not found"@)),
{
    match ext::parse_uuid(id) {
        None => error_response(&NoteError::InvalidInput),
        Some(note_id) => match get_one_note(store, note_id) {
            Ok(note) => ApiResponse { status: 200, body: ApiBody::OneNote(note) },
            Err(e) => error_response(&e),
        },
    }
}

/// Updates one note by the path's id segment. A segment that is no UUID
/// short-circuits to 400 with the store untouched; an absent id is 404 with
/// the store untouched; a title held by a different note surfaces the store's
/// constraint as 500 with the store untouched; otherwise 200 with the update
/// message, and exactly the target's title, content and `updated_at` change.
pub fn update_note(store: &mut NoteStore, id: &str, payload: CreateNote) -> (r: ApiResponse)
    requires
        old(store).wf(),
    ensures
        final(store).wf(),
        ext::uuid_of_str(id@) is None ==> (r.status == 400 && final(store)@ == old(store)@
            && (r.body matches ApiBody::Message(m) && m@ == "The ID provided is not valid UUID"@)),
        (ext::uuid_of_str(id@) is Some && !contains_id(old(store)@, path_id(id@))) ==> (r.status
            == 404 && final(store)@ == old(store)@ && (r.body matches ApiBody::Message(m) && m@
            == "Note not found"@)),
        (ext::uuid_of_str(id@) is Some && contains_id(old(store)@, path_id(id@))
            && title_held_elsewhere(old(store)@, path_id(id@), payload.title@)) ==> (r.status == 500
            && final(store)@ == old(store)@ && (r.body matches ApiBody::Message(m)
            && m@ == "Something went wrong"@)),
        (ext::uuid_of_str(id@) is Some && contains_id(old(store)@, path_id(id@))
            && !title_held_elsewhere(old(store)@, path_id(id@), payload.title@)) ==> (r.status
            == 200 && (r.body matches ApiBody::Message(m) && m@ == "Note updated"@)
            && final(store)@.len() == old(store)@.len()
            && (forall|i: int|
                0 <= i < old(store)@.len() && old(store)@[i].id != path_id(id@)
                    ==> final(store)@[i] == old(store)@[i])
            && (forall|i: int|
                0 <= i < old(store)@.len() && old(store)@[i].id == path_id(id@) ==> {
                    &&& final(store)@[i].id == path_id(id@)
                    &&& final(store)@[i].title@ == payload.title@
                    &&& final(store)@[i].content@ == payload.content@
                    &&& final(store)@[i].created_at == old(store)@[i].created_at
                })),
{
    match ext::parse_uuid(id) {
        None => error_response(&NoteError::InvalidInput),
        Some(note_id) => match model::update_note(store, payload, note_id) {
            Ok(_) => ApiResponse {
                status: 200,
                body: ApiBody::Message(String::from_str("Note updated")),
            },
            Err(e) => error_response(&e),
        },
    }
}

/// Deletes one note by the path's id segment. A segment that is no UUID
/// short-circuits to 400 with the store untouched; an absent id is 404 with
/// the store untouched; otherwise 200 with the delete message and exactly the
/// target's row removed.
pub fn delete_note(store: &mut NoteStore, id: &str) -> (r: ApiResponse)
    requires
        old(store).wf(),
    ensures
        final(store).wf(),
        ext::uuid_of_str(id@) is None ==> (r.status == 400 && final(store)@ == old(store)@
            && (r.body matches ApiBody::Message(m) && m@ == "The ID provided is not valid UUID"@)),
        (ext::uuid_of_str(id@) is Some && !contains_id(old(store)@, path_id(id@))) ==> (r.status
            == 404 && final(store)@ == old(store)@ && (r.body matches ApiBody::Message(m) && m@
            == "Note not found"@)),
        (ext::uuid_of_str(id@) is Some && contains_id(old(store)@, path_id(id@))) ==> (r.status
            == 200 && (r.body matches ApiBody::Message(m) && m@ == "Note deleted"@)
            && (exists|i: int|
                0 <= i < old(store)@.len() && old(store)@[i].id == path_id(id@)
                    && final(store)@ == old(store)@.remove(i)) && !contains_id(
            final(store)@,
            path_id(id@),
        )),
{
    match ext::parse_uuid(id) {
        None => error_response(&NoteError::InvalidInput),
        Some(note_id) => match model::delete_note(store, note_id) {
            Ok(_) => ApiResponse {
                status: 200,
                body: ApiBody::Message(String::from_str("Note deleted")),
            },
            Err(e) => error_response(&e),
        },
    }
}

} // verus!
