use todo_notes::store::{
    NotesCollection, add_note_to, delete_note_task, mark_note_task_as_completed, next_note_id,
    show_saved_notes_from,
};

fn collection_with(titles: &[&str]) -> NotesCollection {
    let mut c = NotesCollection::new();
    for t in titles {
        add_note_to(&mut c, String::from(*t), format!("about {}", t));
    }
    c
}

#[test]
fn add_appends_one_note_with_matching_fields() {
    let mut c = NotesCollection::new();
    assert_eq!(c.count(), 0);
    let note = add_note_to(&mut c, String::from("Buy milk"), String::from("2 liters"));
    assert_eq!(c.count(), 1);
    assert_eq!(note.id, 1);
    let stored = c.get(0);
    assert_eq!(stored.id, 1);
    assert_eq!(stored.title, "Buy milk");
    assert_eq!(stored.description, "2 liters");
    assert!(!stored.completed);
    assert!(stored.created_on.is_valid());
}

#[test]
fn add_assigns_count_plus_one() {
    let mut c = collection_with(&["a", "b", "c"]);
    assert_eq!(next_note_id(c.count()), 4);
    let note = add_note_to(&mut c, String::from("d"), String::from("e"));
    assert_eq!(note.id, 4);
    assert_eq!(c.count(), 4);
}

#[test]
fn add_then_list_shows_the_new_note() {
    let mut c = NotesCollection::new();
    let before = show_saved_notes_from(&c);
    add_note_to(&mut c, String::from("Buy milk"), String::from("2 liters"));
    let after = show_saved_notes_from(&c);
    assert!(after.starts_with(&before));
    assert!(after.contains("Title: Buy milk"));
    assert!(after.contains("Description: 2 liters"));
    assert!(after.contains("[Status: Pending]"));
}

#[test]
fn listing_header_and_blank_lines() {
    let c = collection_with(&["one", "two"]);
    let listing = show_saved_notes_from(&c);
    assert!(listing.starts_with("Summary of all saved todo Notes:\n\n"));
    assert!(listing.ends_with(")\n\n"));
    assert!(listing.contains("Title: one"));
    assert!(listing.contains("Title: two"));
}

#[test]
fn mark_existing_sets_completed_and_keeps_others() {
    let mut c = collection_with(&["a", "b", "c"]);
    let modified = mark_note_task_as_completed(&mut c, 2);
    assert_eq!(modified, 1);
    assert_eq!(c.count(), 3);
    assert!(!c.get(0).completed);
    assert!(c.get(1).completed);
    assert!(!c.get(2).completed);
    assert_eq!(c.get(1).title, "b");
    assert_eq!(c.get(1).description, "about b");
    assert_eq!(c.get(1).id, 2);
}

#[test]
fn mark_then_list_shows_completed() {
    let mut c = collection_with(&["a", "b"]);
    mark_note_task_as_completed(&mut c, 1);
    let listing = show_saved_notes_from(&c);
    assert!(listing.contains("ID: 1\nTitle: a\nDescription: about a\n[Status: Completed]"));
    assert!(listing.contains("ID: 2\nTitle: b\nDescription: about b\n[Status: Pending]"));
}

#[test]
fn second_identical_mark_reports_zero_modified() {
    let mut c = collection_with(&["a", "b"]);
    assert_eq!(mark_note_task_as_completed(&mut c, 2), 1);
    let between = show_saved_notes_from(&c);
    // the second identical mark writes an equal value: nothing counts as modified
    assert_eq!(mark_note_task_as_completed(&mut c, 2), 0);
    assert_eq!(show_saved_notes_from(&c), between);
    assert!(c.get(1).completed);
    assert_eq!(c.count(), 2);
}

#[test]
fn mark_missing_id_changes_nothing() {
    let mut c = collection_with(&["a", "b"]);
    let before = show_saved_notes_from(&c);
    let modified = mark_note_task_as_completed(&mut c, 9);
    assert_eq!(modified, 0);
    assert_eq!(c.count(), 2);
    assert_eq!(show_saved_notes_from(&c), before);
}

#[test]
fn delete_existing_removes_it_and_shrinks_by_one() {
    let mut c = collection_with(&["a", "b", "c"]);
    let deleted = delete_note_task(&mut c, 2);
    assert_eq!(deleted, 1);
    assert_eq!(c.count(), 2);
    let listing = show_saved_notes_from(&c);
    assert!(!listing.contains("ID: 2\n"));
    assert!(listing.contains("Title: a"));
    assert!(listing.contains("Title: c"));
}

#[test]
fn delete_missing_id_changes_nothing() {
    let mut c = collection_with(&["a"]);
    let before = show_saved_notes_from(&c);
    let deleted = delete_note_task(&mut c, 3);
    assert_eq!(deleted, 0);
    assert_eq!(c.count(), 1);
    assert_eq!(show_saved_notes_from(&c), before);
}

#[test]
fn mark_touches_only_the_first_match() {
    let mut c = NotesCollection::new();
    let first = add_note_to(&mut c, String::from("a"), String::from("x"));
    add_note_to(&mut c, String::from("b"), String::from("y"));
    // force a duplicate id, as delete-then-add reuse can produce
    let dup = note_with_id(first.id);
    dup.save_to(&mut c);
    let modified = mark_note_task_as_completed(&mut c, first.id);
    assert_eq!(modified, 1);
    assert!(c.get(0).completed);
    assert!(!c.get(2).completed);
}

fn note_with_id(id: i32) -> todo_notes::note::Note {
    todo_notes::note::Note::new().with_id(id).with_title(String::from("dup")).with_description(
        String::from("dup"),
    )
}

#[test]
fn empty_collection_lists_only_the_header() {
    let c = NotesCollection::new();
    assert_eq!(show_saved_notes_from(&c), "Summary of all saved todo Notes:\n\n");
}

#[test]
fn end_to_end_add_and_list() {
    let mut c = NotesCollection::new();
    add_note_to(&mut c, String::from("Buy milk"), String::from("2 liters"));
    let listing = show_saved_notes_from(&c);
    assert!(listing.contains("Title: Buy milk"));
    assert!(listing.contains("Description: 2 liters"));
    assert!(listing.contains("[Status: Pending]"));
}
