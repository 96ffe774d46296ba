//! The Note resource and its repository: a store of notes with unique
//! identifiers and unique titles, and the create / read / update / delete
//! operations over it, each with the exact outcome it owes.
use crate::ext;
use vstd::prelude::*;

verus! {

/// A persisted note. `id` and `created_at` are set once at creation;
/// `updated_at` is refreshed on every successful update. Timestamps are
/// microseconds since the Unix epoch, UTC.
pub struct Note {
    pub id: u128,
    pub title: String,
    pub content: String,
    pub created_at: i64,
    pub updated_at: i64,
}

/// The client-supplied shape for create and update: title and content only;
/// the id and the timestamps are never taken from the client.
pub struct CreateNote {
    pub title: String,
    pub content: String,
}

/// The repository's error taxonomy. `NotFound`: the target id is absent.
/// `Conflict`: a uniqueness violation on create. `InvalidInput`: a malformed
/// identifier or body, raised before the repository is reached.
/// `StoreFailure`: any other store-level failure, passed through unchanged.
#[derive(Clone, Copy, PartialEq, Eq, Structural, Debug)]
pub enum NoteError {
    NotFound,
    Conflict,
    InvalidInput,
    StoreFailure,
}

impl Clone for Note {
    fn clone(&self) -> (r: Self)
        ensures
            r == *self,
    {
        let r = Note {
            id: self.id,
            title: self.title.clone(),
            content: self.content.clone(),
            created_at: self.created_at,
            updated_at: self.updated_at,
        };
        proof {
            assert(r == *self);
        }
        r
    }
}

impl Clone for CreateNote {
    fn clone(&self) -> (r: Self)
        ensures
            r == *self,
    {
        let r = CreateNote { title: self.title.clone(), content: self.content.clone() };
        proof {
            assert(r == *self);
        }
        r
    }
}

impl Note {
    /// A fresh note: a newly drawn random identifier carrying the version-4
    /// and variant bits, both timestamps set to the same present instant,
    /// title and content taken from the caller.
    pub fn new(title: String, content: String) -> (r: Self)
        ensures
            r.title == title,
            r.content == content,
            r.created_at == r.updated_at,
            (r.id >> 76) & 0xf == 4,
            (r.id >> 62) & 0x3 == 2,
    {
        let now = ext::now_micros();
        Note { id: ext::new_uuid(), title, content, created_at: now, updated_at: now }
    }
}

/// Some note in `s` carries the identifier `id`.
pub open spec fn contains_id(s: Seq<Note>, id: u128) -> bool {
    exists|i: int| 0 <= i < s.len() && s[i].id == id
}

/// `title` is held by some note in `s` other than the one with identifier `id`.
pub open spec fn title_held_elsewhere(s: Seq<Note>, id: u128, title: Seq<char>) -> bool {
    exists|j: int| 0 <= j < s.len() && s[j].id != id && s[j].title@ == title
}

/// Some note in `s` carries the title `title`.
pub open spec fn contains_title(s: Seq<Note>, title: Seq<char>) -> bool {
    exists|i: int| 0 <= i < s.len() && s[i].title@ == title
}

/// No two notes in `s` share an identifier.
pub open spec fn unique_ids(s: Seq<Note>) -> bool {
    forall|i: int, j: int| 0 <= i < j < s.len() ==> s[i].id != s[j].id
}

/// No two notes in `s` share a title.
pub open spec fn unique_titles(s: Seq<Note>) -> bool {
    forall|i: int, j: int| 0 <= i < j < s.len() ==> s[i].title@ != s[j].title@
}

/// The store of notes. It stands where the external relational table stands:
/// one row per note, with identifier and title each under a uniqueness
/// constraint.
pub struct NoteStore {
    notes: Vec<Note>,
}

impl View for NoteStore {
    type V = Seq<Note>;

    closed spec fn view(&self) -> Seq<Note> {
        self.notes@
    }
}

impl NoteStore {
    /// The store's invariant: both uniqueness constraints hold.
    pub open spec fn wf(&self) -> bool {
        unique_ids(self@) && unique_titles(self@)
    }

    /// An empty store.
    pub fn new() -> (s: Self)
        ensures
            s@ == Seq::<Note>::empty(),
            s.wf(),
    {
        let s = NoteStore { notes: Vec::new() };
        proof {
            assert(s@ =~= Seq::<Note>::empty());
        }
        s
    }
}

/// The index of the note carrying `note_id`, if any.
fn find_index_by_id(notes: &Vec<Note>, note_id: u128) -> (r: Option<usize>)
    ensures
        match r {
            Some(i) => i < notes@.len() && notes@[i as int].id == note_id,
            None => !contains_id(notes@, note_id),
        },
{
    let mut i: usize = 0;
    while i < notes.len()
        invariant
            i <= notes@.len(),
            forall|j: int| 0 <= j < i ==> notes@[j].id != note_id,
        decreases notes@.len() - i,
    {
        if notes[i].id == note_id {
            return Some(i);
        }
        i += 1;
    }
    None
}

/// Whether some note already carries `title`.
fn title_exists(notes: &Vec<Note>, title: &String) -> (r: bool)
    ensures
        r == contains_title(notes@, title@),
{
    let mut i: usize = 0;
    while i < notes.len()
        invariant
            i <= notes@.len(),
            forall|j: int| 0 <= j < i ==> notes@[j].title@ != title@,
        decreases notes@.len() - i,
    {
        if notes[i].title == *title {
            return true;
        }
        i += 1;
    }
    false
}

/// Whether a note other than the one at `idx` carries `title`.
fn title_held_by_other(notes: &Vec<Note>, title: &String, idx: usize) -> (r: bool)
    requires
        idx < notes@.len(),
    ensures
        unique_ids(notes@) ==> r == title_held_elsewhere(notes@, notes@[idx as int].id, title@),
{
    let mut i: usize = 0;
    while i < notes.len()
        invariant
            idx < notes@.len(),
            i <= notes@.len(),
            forall|j: int| 0 <= j < i && j != idx ==> notes@[j].title@ != title@,
        decreases notes@.len() - i,
    {
        if i != idx && notes[i].title == *title {
            proof {
                if unique_ids(notes@) {
                    assert(notes@[i as int].id != notes@[idx as int].id);
                }
            }
            return true;
        }
        i += 1;
    }
    proof {
        if title_held_elsewhere(notes@, notes@[idx as int].id, title@) {
            let j = choose|j: int|
                0 <= j < notes@.len() && notes@[j].id != notes@[idx as int].id && notes@[j].title@
                    == title@;
            assert(j != idx);
            assert(false);
        }
    }
    false
}

/// Looks up exactly one note by its identifier. Owes the note when the id is
/// present and `NotFound` when it is absent; no other outcome exists.
pub fn get_one_note(store: &NoteStore, note_id: u128) -> (r: Result<Note, NoteError>)
    requires
        store.wf(),
    ensures
        match r {
            Ok(n) => contains_id(store@, note_id) && n.id == note_id && forall|i: int|
                0 <= i < store@.len() && store@[i].id == note_id ==> store@[i] == n,
            Err(e) => e == NoteError::NotFound && !contains_id(store@, note_id),
        },
{
    match find_index_by_id(&store.notes, note_id) {
        Some(i) => {
            let n = store.notes[i].clone();
            proof {
                assert forall|j: int|
                    0 <= j < store@.len() && store@[j].id == note_id implies store@[j] == n by {
                    if j != i as int {
                        assert(store@[j].id != store@[i as int].id);
                    }
                }
            }
            Ok(n)
        },
        None => Err(NoteError::NotFound),
    }
}

/// Returns every note in the store, in store order: one entry per stored
/// note, none omitted, none duplicated. An empty store yields the empty list.
pub fn get_notes(store: &NoteStore) -> (r: Result<Vec<Note>, NoteError>)
    ensures
        r matches Ok(v) && v@ == store@,
{
    let mut out: Vec<Note> = Vec::new();
    let mut i: usize = 0;
    while i < store.notes.len()
        invariant
            i <= store.notes@.len(),
            out@.len() == i as nat,
            forall|j: int| 0 <= j < i ==> out@[j] == store.notes@[j],
        decreases store.notes@.len() - i,
    {
        out.push(store.notes[i].clone());
        i += 1;
    }
    proof {
        assert(out@ =~= store@);
    }
    Ok(out)
}

/// Inserts a fully built note, under the store's two uniqueness constraints:
/// a clash on either the identifier or the title is refused with `Conflict`
/// and leaves the store unchanged; otherwise the note is appended as given.
pub fn create_note_with(store: &mut NoteStore, note: Note) -> (r: Result<Note, NoteError>)
    requires
        old(store).wf(),
    ensures
        final(store).wf(),
        match r {
            Ok(n) => n == note && !contains_id(old(store)@, note.id) && !contains_title(
                old(store)@,
                note.title@,
            ) && final(store)@ == old(store)@.push(note),
            Err(e) => e == NoteError::Conflict && final(store)@ == old(store)@ && (contains_id(
                old(store)@,
                note.id,
            ) || contains_title(old(store)@, note.title@)),
        },
{
    if find_index_by_id(&store.notes, note.id).is_some() {
        return Err(NoteError::Conflict);
    }
    if title_exists(&store.notes, &note.title) {
        return Err(NoteError::Conflict);
    }
    let stored = note.clone();
    store.notes.push(stored);
    proof {
        let s0 = old(store)@;
        assert(store@ =~= s0.push(note));
        assert forall|i: int, j: int| 0 <= i < j < store@.len() implies store@[i].id
            != store@[j].id by {
            if j < s0.len() {
            } else {
                assert(store@[j] == note);
                assert(store@[i] == s0[i]);
            }
        }
        assert forall|i: int, j: int| 0 <= i < j < store@.len() implies store@[i].title@
            != store@[j].title@ by {
            if j < s0.len() {
            } else {
                assert(store@[j] == note);
                assert(store@[i] == s0[i]);
            }
        }
    }
    Ok(note)
}

/// Creates a note from the client-supplied shape: draws a fresh random
/// identifier and the present instant, then inserts one row. A title already
/// present is owed `Conflict`; on success the returned note carries the
/// client's fields and equal creation and update timestamps.
pub fn create_note(store: &mut NoteStore, new_note: CreateNote) -> (r: Result<Note, NoteError>)
    requires
        old(store).wf(),
    ensures
        final(store).wf(),
        match r {
            Ok(n) => n.title@ == new_note.title@ && n.content@ == new_note.content@
                && n.created_at == n.updated_at && (n.id >> 76) & 0xf == 4 && (n.id >> 62) & 0x3
                == 2 && !contains_id(old(store)@, n.id) && !contains_title(old(store)@, n.title@)
                && final(store)@ == old(store)@.push(n),
            Err(e) => e == NoteError::Conflict && final(store)@ == old(store)@,
        },
        contains_title(old(store)@, new_note.title@) ==> r is Err,
        r is Err ==> contains_title(old(store)@, new_note.title@) || old(store)@.len() > 0,
{
    let note = Note::new(new_note.title, new_note.content);
    create_note_with(store, note)
}

/// Updates the note carrying `note_id` to the given title and content,
/// stamping `updated_at` with the given instant. An absent id is owed
/// `NotFound`; a title held by a different note trips the store's uniqueness
/// constraint, which this operation does not reclassify: it surfaces as
/// `StoreFailure`. Either failure leaves the store unchanged. On success
/// exactly the target note changes, and only its title, content and
/// `updated_at`; a strictly newer instant strictly increases `updated_at`.
pub fn update_note_at(
    store: &mut NoteStore,
    updated_note: &CreateNote,
    note_id: u128,
    now: i64,
) -> (r: Result<u64, NoteError>)
    requires
        old(store).wf(),
    ensures
        final(store).wf(),
        final(store)@.len() == old(store)@.len(),
        match r {
            Ok(rows) => rows == 1 && contains_id(old(store)@, note_id) && !title_held_elsewhere(
                old(store)@,
                note_id,
                updated_note.title@,
            ) && (forall|i: int|
                0 <= i < old(store)@.len() && old(store)@[i].id != note_id ==> final(store)@[i]
                    == old(store)@[i]) && (forall|i: int|
                0 <= i < old(store)@.len() && old(store)@[i].id == note_id ==> {
                    &&& final(store)@[i].id == note_id
                    &&& final(store)@[i].title@ == updated_note.title@
                    &&& final(store)@[i].content@ == updated_note.content@
                    &&& final(store)@[i].created_at == old(store)@[i].created_at
                    &&& final(store)@[i].updated_at == now
                    &&& (old(store)@[i].updated_at < now ==> final(store)@[i].updated_at > old(
                        store,
                    )@[i].updated_at)
                }),
            Err(e) => final(store)@ == old(store)@ && (e == NoteError::NotFound
                <==> !contains_id(old(store)@, note_id)) && (e == NoteError::StoreFailure
                <==> contains_id(old(store)@, note_id) && title_held_elsewhere(
                old(store)@,
                note_id,
                updated_note.title@,
            )) && (e == NoteError::NotFound || e == NoteError::StoreFailure),
        },
{
    match find_index_by_id(&store.notes, note_id) {
        None => Err(NoteError::NotFound),
        Some(i) => {
            if title_held_by_other(&store.notes, &updated_note.title, i) {
                Err(NoteError::StoreFailure)
            } else {
                let created = store.notes[i].created_at;
                let fresh = Note {
                    id: note_id,
                    title: updated_note.title.clone(),
                    content: updated_note.content.clone(),
                    created_at: created,
                    updated_at: now,
                };
                store.notes[i] = fresh;
                proof {
                    let s0 = old(store)@;
                    let s1 = store@;
                    assert forall|k: int|
                        0 <= k < s0.len() && s0[k].id == note_id implies k == i as int by {
                        if k != i as int {
                            assert(s0[k].id != s0[i as int].id);
                        }
                    }
                    assert forall|p: int, q: int| 0 <= p < q < s1.len() implies s1[p].id
                        != s1[q].id by {
                        assert(s1[p].id == s0[p].id);
                        assert(s1[q].id == s0[q].id);
                    }
                    assert forall|p: int, q: int| 0 <= p < q < s1.len() implies s1[p].title@
                        != s1[q].title@ by {
                        if p != i as int && q != i as int {
                            assert(s1[p] == s0[p]);
                            assert(s1[q] == s0[q]);
                        } else if p == i as int {
                            assert(s1[q] == s0[q]);
                            assert(s0[q].id != note_id);
                            assert(!title_held_elsewhere(s0, note_id, updated_note.title@));
                            assert(s0[q].title@ != updated_note.title@);
                        } else {
                            assert(s1[p] == s0[p]);
                            assert(s0[p].id != note_id);
                            assert(s0[p].title@ != updated_note.title@);
                        }
                    }
                }
                Ok(1)
            }
        },
    }
}

/// Updates the note carrying `note_id` with the present instant as its new
/// `updated_at`. The outcome taxonomy is that of `update_note_at`; what value
/// the clock supplied is not stated, only where it is written.
pub fn update_note(store: &mut NoteStore, updated_note: CreateNote, note_id: u128) -> (r: Result<
    u64,
    NoteError,
>)
    requires
        old(store).wf(),
    ensures
        final(store).wf(),
        final(store)@.len() == old(store)@.len(),
        match r {
            Ok(rows) => rows == 1 && contains_id(old(store)@, note_id) && (forall|i: int|
                0 <= i < old(store)@.len() && old(store)@[i].id != note_id ==> final(store)@[i]
                    == old(store)@[i]) && (forall|i: int|
                0 <= i < old(store)@.len() && old(store)@[i].id == note_id ==> {
                    &&& final(store)@[i].id == note_id
                    &&& final(store)@[i].title@ == updated_note.title@
                    &&& final(store)@[i].content@ == updated_note.content@
                    &&& final(store)@[i].created_at == old(store)@[i].created_at
                }),
            Err(e) => final(store)@ == old(store)@ && (e == NoteError::NotFound
                <==> !contains_id(old(store)@, note_id)) && (e == NoteError::StoreFailure
                <==> contains_id(old(store)@, note_id) && title_held_elsewhere(
                old(store)@,
                note_id,
                updated_note.title@,
            )) && (e == NoteError::NotFound || e == NoteError::StoreFailure),
        },
{
    let now = ext::now_micros();
    update_note_at(store, &updated_note, note_id, now)
}

/// Deletes the note carrying `note_id`. An absent id is owed `NotFound` and
/// leaves the store unchanged; a present id has exactly its own row removed,
/// after which the id is no longer in the store.
pub fn delete_note(store: &mut NoteStore, note_id: u128) -> (r: Result<u64, NoteError>)
    requires
        old(store).wf(),
    ensures
        final(store).wf(),
        match r {
            Ok(rows) => rows == 1 && (exists|i: int|
                0 <= i < old(store)@.len() && old(store)@[i].id == note_id && final(store)@ == old(
                    store,
                )@.remove(i)) && !contains_id(final(store)@, note_id),
            Err(e) => e == NoteError::NotFound && final(store)@ == old(store)@ && !contains_id(
                old(store)@,
                note_id,
            ),
        },
{
    match find_index_by_id(&store.notes, note_id) {
        None => Err(NoteError::NotFound),
        Some(i) => {
            store.notes.remove(i);
            proof {
                let s0 = old(store)@;
                let s1 = store@;
                assert(s1 =~= s0.remove(i as int));
                assert forall|j: int| 0 <= j < s1.len() implies s1[j].id != note_id by {
                    if j < i as int {
                        assert(s1[j] == s0[j]);
                        assert(s0[j].id != s0[i as int].id);
                    } else {
                        assert(s1[j] == s0[j + 1]);
                        assert(s0[i as int].id != s0[j + 1].id);
                    }
                }
                assert forall|p: int, q: int| 0 <= p < q < s1.len() implies s1[p].id
                    != s1[q].id by {
                    let p0: int = if p < i as int { p } else { p + 1 };
                    let q0: int = if q < i as int { q } else { q + 1 };
                    assert(s1[p] == s0[p0]);
                    assert(s1[q] == s0[q0]);
                }
                assert forall|p: int, q: int| 0 <= p < q < s1.len() implies s1[p].title@
                    != s1[q].title@ by {
                    let p0: int = if p < i as int { p } else { p + 1 };
                    let q0: int = if q < i as int { q } else { q + 1 };
                    assert(s1[p] == s0[p0]);
                    assert(s1[q] == s0[q0]);
                }
            }
            Ok(1)
        },
    }
}

/// Maps an affected-row count from the store to the repository outcome: a
/// statement that touched no row means the target id does not exist.
pub fn rows_affected_outcome(rows: u64) -> (r: Result<u64, NoteError>)
    ensures
        rows == 0 ==> (r matches Err(e) && e == NoteError::NotFound),
        rows > 0 ==> (r matches Ok(n) && n == rows),
{
    if rows == 0 {
        Err(NoteError::NotFound)
    } else {
        Ok(rows)
    }
}

/// How many notes in `s` carry the title `t`.
pub open spec fn count_title(s: Seq<Note>, t: Seq<char>) -> nat
    decreases s.len(),
{
    if s.len() == 0 {
        0
    } else {
        count_title(s.drop_last(), t) + if s.last().title@ == t {
            1nat
        } else {
            0nat
        }
    }
}

/// How many notes in `s` carry the identifier `id`.
pub open spec fn count_id(s: Seq<Note>, id: u128) -> nat
    decreases s.len(),
{
    if s.len() == 0 {
        0
    } else {
        count_id(s.drop_last(), id) + if s.last().id == id {
            1nat
        } else {
            0nat
        }
    }
}

/// A title absent from the store is carried by no note at all.
pub proof fn lemma_count_title_absent(s: Seq<Note>, t: Seq<char>)
    requires
        !contains_title(s, t),
    ensures
        count_title(s, t) == 0,
    decreases s.len(),
{
    if s.len() > 0 {
        assert forall|i: int| 0 <= i < s.drop_last().len() implies s.drop_last()[i].title@
            != t by {
            assert(s.drop_last()[i] == s[i]);
        }
        lemma_count_title_absent(s.drop_last(), t);
        assert(s.last() == s[s.len() - 1]);
    }
}

/// An identifier absent from the store is carried by no note at all.
pub proof fn lemma_count_id_absent(s: Seq<Note>, id: u128)
    requires
        !contains_id(s, id),
    ensures
        count_id(s, id) == 0,
    decreases s.len(),
{
    if s.len() > 0 {
        assert forall|i: int| 0 <= i < s.drop_last().len() implies s.drop_last()[i].id != id by {
            assert(s.drop_last()[i] == s[i]);
        }
        lemma_count_id_absent(s.drop_last(), id);
        assert(s.last() == s[s.len() - 1]);
    }
}

/// Law: creating a note whose title is absent from the store leaves exactly
/// one note carrying that title. Together with the create contract — which
/// refuses a present title with `Conflict` and leaves the store unchanged —
/// this is why a second create with the same title fails while the store
/// keeps exactly one row with it.
pub proof fn lemma_second_create_with_same_title(s: Seq<Note>, n: Note)
    requires
        !contains_title(s, n.title@),
    ensures
        contains_title(s.push(n), n.title@),
        count_title(s.push(n), n.title@) == 1,
{
    lemma_count_title_absent(s, n.title@);
    assert(s.push(n)[s.len() as int] == n);
    assert(s.push(n).drop_last() =~= s);
    assert(s.push(n).last() == n);
}

/// Law: under the store's id-uniqueness constraint, deleting an existing note
/// removes exactly one row — the store held one note with that id and
/// afterwards holds none — so a later lookup of the id is owed `NotFound` by
/// the lookup's own contract.
pub proof fn lemma_delete_removes_exactly_one(s: Seq<Note>, i: int)
    requires
        unique_ids(s),
        0 <= i < s.len(),
    ensures
        count_id(s, s[i].id) == 1,
        count_id(s.remove(i), s[i].id) == 0,
        !contains_id(s.remove(i), s[i].id),
    decreases s.len(),
{
    let id = s[i].id;
    assert forall|j: int| 0 <= j < s.remove(i).len() implies s.remove(i)[j].id != id by {
        if j < i {
            assert(s.remove(i)[j] == s[j]);
        } else {
            assert(s.remove(i)[j] == s[j + 1]);
        }
    }
    lemma_count_id_absent(s.remove(i), id);
    if i == s.len() - 1 {
        assert(s.remove(i) =~= s.drop_last());
        assert(s.last() == s[i]);
    } else {
        assert(s.drop_last()[i] == s[i]);
        assert(unique_ids(s.drop_last())) by {
            assert forall|p: int, q: int|
                0 <= p < q < s.drop_last().len() implies s.drop_last()[p].id
                != s.drop_last()[q].id by {
                assert(s.drop_last()[p] == s[p]);
                assert(s.drop_last()[q] == s[q]);
            }
        }
        lemma_delete_removes_exactly_one(s.drop_last(), i);
        assert(s.last() == s[s.len() - 1]);
        assert(s.last().id != id);
        assert(count_id(s, id) == count_id(s.drop_last(), id));
    }
}

/// Reclassifies a store-level failure once, at the layer with structured
/// access to the error: a uniqueness violation becomes `Conflict`, anything
/// else the generic `StoreFailure`.
pub fn classify_store_error(unique_violation: bool) -> (e: NoteError)
    ensures
        e == if unique_violation {
            NoteError::Conflict
        } else {
            NoteError::StoreFailure
        },
{
    if unique_violation {
        NoteError::Conflict
    } else {
        NoteError::StoreFailure
    }
}

} // verus!
