//! The notes collection and its four operations. The collection is modeled
//! as the sequence of stored documents in insertion order; each operation's
//! contract pins the new sequence in terms of the old one.

use vstd::prelude::*;
use vstd::pervasive::VecAdditionalExecFns;
use vstd::string::StringExecFns;
use crate::note::{Note, NoteView, spec_status, spec_summarize};

verus! {

/// The stored notes, in the store's natural (insertion) order.
pub struct NotesCollection {
    notes: Vec<Note>,
}

impl View for NotesCollection {
    type V = Seq<NoteView>;

    closed spec fn view(&self) -> Seq<NoteView> {
        self.notes@.map_values(|n: Note| n@)
    }
}

/// Is some stored note carrying this id?
pub open spec fn has_note_with_id(s: Seq<NoteView>, id: int) -> bool {
    exists|i: int| 0 <= i < s.len() && (#[trigger] s[i]).id == id
}

/// The same note with the completed flag set; nothing else moves.
pub open spec fn marked(v: NoteView) -> NoteView {
    NoteView { completed: true, ..v }
}

/// One mark step: the first note carrying the id, and only it, is replaced
/// by its marked copy — which changes nothing when it was already completed —
/// and the reported count says whether the document actually changed: the
/// store counts a write of an equal value as zero documents modified.
pub open spec fn mark_step(pre: Seq<NoteView>, post: Seq<NoteView>, id: int, modified: int) -> bool {
    exists|i: int|
        #![auto]
        {
            &&& 0 <= i < pre.len()
            &&& pre[i].id == id
            &&& (forall|j: int| 0 <= j < i ==> pre[j].id != id)
            &&& post == pre.update(i, marked(pre[i]))
            &&& modified == (if pre[i].completed {
                0int
            } else {
                1int
            })
        }
}

/// One delete step: the first note carrying the id is removed and the rest
/// keep their order.
pub open spec fn delete_step(pre: Seq<NoteView>, post: Seq<NoteView>, id: int) -> bool {
    exists|i: int|
        #![auto]
        {
            &&& 0 <= i < pre.len()
            &&& pre[i].id == id
            &&& (forall|j: int| 0 <= j < i ==> pre[j].id != id)
            &&& post == pre.remove(i)
        }
}

impl NotesCollection {
    /// Every stored timestamp has the ranges of a real time of day.
    pub open spec fn wf(&self) -> bool {
        forall|i: int| 0 <= i < self@.len() ==> (#[trigger] self@[i]).created_on.wf()
    }

    /// An empty collection.
    pub fn new() -> (r: Self)
        ensures
            r@ == Seq::<NoteView>::empty(),
    {
        let r = NotesCollection { notes: Vec::new() };
        proof {
            assert(r@ =~= Seq::<NoteView>::empty());
        }
        r
    }

    /// find-all, counted: how many documents are stored.
    pub fn count(&self) -> (n: usize)
        ensures
            n == self@.len(),
    {
        self.notes.len()
    }

    /// The document at one position of the store's natural order.
    pub fn get(&self, i: usize) -> (r: &Note)
        requires
            i < self@.len(),
        ensures
            r@ == self@[i as int],
    {
        &self.notes[i]
    }

    /// Replaces the note at a position by its marked copy.
    fn set_completed(&mut self, i: usize)
        requires
            i < old(self)@.len(),
        ensures
            final(self)@ == old(self)@.update(i as int, marked(old(self)@[i as int])),
    {
        let n = &self.notes[i];
        let updated = Note {
            id: n.id,
            title: n.title.clone(),
            description: n.description.clone(),
            completed: true,
            created_on: n.created_on,
        };
        self.notes.set(i, updated);
        proof {
            assert(self@ =~= old(self)@.update(i as int, marked(old(self)@[i as int])));
        }
    }
}

impl Note {
    /// insert-one: appends this note to the collection.
    pub fn save_to(&self, collection: &mut NotesCollection)
        ensures
            final(collection)@ == old(collection)@.push(self@),
    {
        collection.notes.push(self.clone());
        proof {
            assert(collection@ =~= old(collection)@.push(self@));
        }
    }
}

/// The id the add operation assigns: one more than the current document count.
pub fn next_note_id(count: usize) -> (id: i32)
    requires
        count + 1 <= i32::MAX,
    ensures
        id == count + 1,
{
    (count + 1) as i32
}

/// add: computes the next id as the document count plus one, builds the note
/// from the given title and description, and inserts it. Returns the note
/// that was stored.
pub fn add_note_to(collection: &mut NotesCollection, title: String, description: String) -> (note:
    Note)
    requires
        old(collection)@.len() + 1 <= i32::MAX,
    ensures
        note@.id == old(collection)@.len() + 1,
        note@.title == title@,
        note@.description == description@,
        note@.completed == false,
        note@.created_on.wf(),
        final(collection)@ == old(collection)@.push(note@),
        old(collection).wf() ==> final(collection).wf(),
{
    let id = next_note_id(collection.count());
    let note = Note::new().with_id(id).with_title(title).with_description(description);
    let note = note.create().unwrap();
    note.save_to(collection);
    note
}

/// mark: sets `completed` on the single document matching the id, a partial
/// update that touches no other field and no other document. Reports the
/// store's modified count: one when the matched note was still pending, zero
/// when it was already completed (the write leaves it equal) or when no note
/// carries the id (and then nothing changes at all).
pub fn mark_note_task_as_completed(collection: &mut NotesCollection, note_id: i32) -> (modified:
    usize)
    ensures
        !has_note_with_id(old(collection)@, note_id as int) ==> final(collection)@ == old(
            collection,
        )@ && modified == 0,
        has_note_with_id(old(collection)@, note_id as int) ==> mark_step(
            old(collection)@,
            final(collection)@,
            note_id as int,
            modified as int,
        ),
        old(collection).wf() ==> final(collection).wf(),
{
    let n = collection.count();
    let mut i: usize = 0;
    while i < n
        invariant
            i <= n,
            n == collection@.len(),
            collection@ == old(collection)@,
            forall|j: int| 0 <= j < i ==> (#[trigger] collection@[j]).id != note_id as int,
        decreases n - i,
    {
        if collection.get(i).id == note_id {
            let was_completed = collection.get(i).completed;
            collection.set_completed(i);
            let modified: usize = if was_completed {
                0
            } else {
                1
            };
            proof {
                let gi = i as int;
                assert(0 <= gi < old(collection)@.len() && old(collection)@[gi].id
                    == note_id as int && (forall|j: int|
                    0 <= j < gi ==> old(collection)@[j].id != note_id as int) && collection@
                    == old(collection)@.update(gi, marked(old(collection)@[gi])) && modified as int
                    == (if old(collection)@[gi].completed {
                    0int
                } else {
                    1int
                }));
            }
            return modified;
        }
        i += 1;
    }
    0
}

/// delete: removes the single document matching the id. Reports how many
/// documents were deleted: one on a match, zero (and no change at all) when
/// no note carries the id.
pub fn delete_note_task(collection: &mut NotesCollection, note_id: i32) -> (deleted: usize)
    ensures
        !has_note_with_id(old(collection)@, note_id as int) ==> final(collection)@ == old(
            collection,
        )@ && deleted == 0,
        has_note_with_id(old(collection)@, note_id as int) ==> deleted == 1 && delete_step(
            old(collection)@,
            final(collection)@,
            note_id as int,
        ),
        old(collection).wf() ==> final(collection).wf(),
{
    let n = collection.count();
    let mut i: usize = 0;
    while i < n
        invariant
            i <= n,
            n == collection@.len(),
            collection@ == old(collection)@,
            forall|j: int| 0 <= j < i ==> (#[trigger] collection@[j]).id != note_id as int,
        decreases n - i,
    {
        if collection.get(i).id == note_id {
            let _ = collection.notes.remove(i);
            proof {
                let gi = i as int;
                assert(collection@ =~= old(collection)@.remove(gi));
                assert(0 <= gi < old(collection)@.len() && old(collection)@[gi].id
                    == note_id as int && (forall|j: int|
                    0 <= j < gi ==> old(collection)@[j].id != note_id as int) && collection@
                    == old(collection)@.remove(gi));
            }
            return 1;
        }
        i += 1;
    }
    0
}

/// The listing bodies: each note's summary followed by a blank line, in
/// store order.
pub open spec fn spec_summaries(s: Seq<NoteView>) -> Seq<char>
    decreases s.len(),
{
    if s.len() == 0 {
        Seq::<char>::empty()
    } else {
        spec_summaries(s.drop_last()) + spec_summarize(s.last()) + "\n\n"@
    }
}

/// The whole listing: a fixed header, then the summaries.
pub open spec fn spec_listing(s: Seq<NoteView>) -> Seq<char> {
    "Summary of all saved todo Notes:\n\n"@ + spec_summaries(s)
}

/// list: renders every stored note via its summary, notes separated by blank
/// lines, under a fixed header.
pub fn show_saved_notes_from(collection: &NotesCollection) -> (out: String)
    requires
        collection.wf(),
    ensures
        out@ == spec_listing(collection@),
{
    let mut out = "Summary of all saved todo Notes:\n\n".to_owned();
    proof {
        reveal_strlit("Summary of all saved todo Notes:\n\n");
        assert(collection@.take(0) =~= Seq::<NoteView>::empty());
    }
    let n = collection.count();
    let mut i: usize = 0;
    while i < n
        invariant
            i <= n,
            n == collection@.len(),
            collection.wf(),
            out@ == "Summary of all saved todo Notes:\n\n"@ + spec_summaries(
                collection@.take(i as int),
            ),
        decreases n - i,
    {
        let summary = collection.get(i).summarize();
        out.append(summary.as_str());
        out.append("\n\n");
        proof {
            reveal_strlit("\n\n");
            let t = collection@.take(i as int + 1);
            assert(t.drop_last() =~= collection@.take(i as int));
            assert(t.last() == collection@[i as int]);
            assert(out@ =~= "Summary of all saved todo Notes:\n\n"@ + spec_summaries(t));
        }
        i += 1;
    }
    proof {
        assert(collection@.take(n as int) =~= collection@);
    }
    out
}

/// Adding a note and then listing shows exactly the old listing with the new
/// note's summary appended: one more note, and its text carries the new
/// note's fields.
pub proof fn lemma_listing_after_add(s: Seq<NoteView>, v: NoteView)
    ensures
        s.push(v).len() == s.len() + 1,
        spec_summaries(s.push(v)) == spec_summaries(s) + spec_summarize(v) + "\n\n"@,
{
    assert(s.push(v).drop_last() =~= s);
    assert(s.push(v).last() == v);
}

/// A mark step flips exactly the matched note to completed, keeping its id,
/// title, description and timestamp, and leaves every other note's view
/// unchanged.
pub proof fn lemma_mark_changes_only_match(
    pre: Seq<NoteView>,
    post: Seq<NoteView>,
    id: int,
    modified: int,
)
    requires
        mark_step(pre, post, id, modified),
    ensures
        post.len() == pre.len(),
        exists|i: int|
            #![auto]
            {
                &&& 0 <= i < pre.len()
                &&& pre[i].id == id
                &&& post[i].completed
                &&& post[i].id == pre[i].id
                &&& post[i].title == pre[i].title
                &&& post[i].description == pre[i].description
                &&& post[i].created_on == pre[i].created_on
                &&& (forall|j: int| 0 <= j < pre.len() && j != i ==> post[j] == pre[j])
            },
{
    let i = choose|i: int|
        #![auto]
        {
            &&& 0 <= i < pre.len()
            &&& pre[i].id == id
            &&& (forall|j: int| 0 <= j < i ==> pre[j].id != id)
            &&& post == pre.update(i, marked(pre[i]))
            &&& modified == (if pre[i].completed {
                0int
            } else {
                1int
            })
        };
    assert(post[i] == marked(pre[i]));
    assert(forall|j: int| 0 <= j < pre.len() && j != i ==> post[j] == pre[j]);
}

/// Marking the same id a second time is idempotent: the matched note is
/// already completed, so the second mark leaves every note exactly as it was
/// and reports zero modified documents.
pub proof fn lemma_mark_twice_is_noop(
    pre: Seq<NoteView>,
    mid: Seq<NoteView>,
    post: Seq<NoteView>,
    id: int,
    m1: int,
    m2: int,
)
    requires
        mark_step(pre, mid, id, m1),
        mark_step(mid, post, id, m2),
    ensures
        post == mid,
        m2 == 0,
{
    let i1 = choose|i: int|
        #![auto]
        {
            &&& 0 <= i < pre.len()
            &&& pre[i].id == id
            &&& (forall|j: int| 0 <= j < i ==> pre[j].id != id)
            &&& mid == pre.update(i, marked(pre[i]))
            &&& m1 == (if pre[i].completed {
                0int
            } else {
                1int
            })
        };
    let i2 = choose|i: int|
        #![auto]
        {
            &&& 0 <= i < mid.len()
            &&& mid[i].id == id
            &&& (forall|j: int| 0 <= j < i ==> mid[j].id != id)
            &&& post == mid.update(i, marked(mid[i]))
            &&& m2 == (if mid[i].completed {
                0int
            } else {
                1int
            })
        };
    // the update keeps every id, so both steps match at the same first index
    assert(mid[i1].id == id);
    assert(forall|j: int| 0 <= j < i1 ==> mid[j].id == pre[j].id);
    assert(i2 == i1);
    assert(mid[i1] == marked(pre[i1]));
    assert(mid[i1].completed);
    assert(marked(mid[i1]) == mid[i1]);
    assert(post =~= mid);
}

/// A marked note's summary reads "Completed" in its status line.
pub proof fn lemma_marked_summary_status(v: NoteView)
    ensures
        spec_status(marked(v).completed) == "Completed"@,
{
}

/// Deleting an id that exactly one note carries shrinks the collection by
/// one and leaves no note with that id behind.
pub proof fn lemma_delete_removes_id(pre: Seq<NoteView>, post: Seq<NoteView>, id: int)
    requires
        delete_step(pre, post, id),
        forall|j: int, k: int|
            (0 <= j < pre.len() && 0 <= k < pre.len() && (#[trigger] pre[j]).id == id && (
            #[trigger] pre[k]).id == id) ==> j == k,
    ensures
        post.len() == pre.len() - 1,
        !has_note_with_id(post, id),
{
    let i = choose|i: int|
        #![auto]
        {
            &&& 0 <= i < pre.len()
            &&& pre[i].id == id
            &&& (forall|j: int| 0 <= j < i ==> pre[j].id != id)
            &&& post == pre.remove(i)
        };
    assert forall|j: int| 0 <= j < post.len() implies (#[trigger] post[j]).id != id by {
        if j < i {
            assert(post[j] == pre[j]);
        } else {
            assert(post[j] == pre[j + 1]);
        }
    }
}

/// A no-op mark or delete: where no note carries the id, both operations
/// leave the collection exactly as it was, and that is already what their
/// contracts say; stated here over the predicates for reference.
pub proof fn lemma_missing_id_is_noop(s: Seq<NoteView>, id: int)
    requires
        !has_note_with_id(s, id),
    ensures
        forall|post: Seq<NoteView>, m: int| !mark_step(s, post, id, m),
        forall|post: Seq<NoteView>| !delete_step(s, post, id),
{
}

} // verus!
