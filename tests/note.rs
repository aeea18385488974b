use todo_core::{IndexOutOfRange, Note, Status, Timestamp, Togglable};

fn at(secs: i64, nanos: u32) -> Timestamp {
    Timestamp { secs, nanos }
}

#[test]
fn note_create() {
    let note = Note::new("New note".to_string(), "this is an important note".to_string());
    assert_eq!(note.title, "New note");
    assert_eq!(note.description, "this is an important note");
    assert!(matches!(note.status, Status::Doing));
}

#[test]
fn note_toggle() {
    let mut note = Note::new("Note to be toggled".to_string(), "toggle this note!".to_string());
    assert!(matches!(note.status, Status::Doing));
    note.toggle();
    assert!(matches!(note.status, Status::Done));
}

#[test]
fn add_tag() {
    let mut note = Note::new("Note with tag".to_string(), "tag it!".to_string());
    assert_eq!(note.tags.len(), 0);
    note.add_tag("Food".to_string());
    assert_eq!(note.tags.len(), 1);
    assert_eq!(note.tags[0], "Food");
}

#[test]
fn toggle_checklist_element() {
    let mut note = Note::new("Note with checklist item to be toggled".to_string(), "toggle inside!".to_string());
    assert!(matches!(note.status, Status::Doing));
    note.add_checklist_element("Point 1".to_string());
    note.toggle_checklist_element(0).unwrap();
    assert!(matches!(note.checklist[0].status, Status::Done));
}

#[test]
fn note_new_starts_doing_with_equal_times() {
    let note = Note::new("Fresh".to_string(), "just made".to_string());
    assert_eq!(note.status, Status::Doing);
    assert_eq!(note.inserted_at, note.updated_at);
    assert!(note.checklist.is_empty());
    assert!(note.tags.is_empty());
    assert!(note.inserted_at.secs > 1_600_000_000);
}

#[test]
fn note_created_at_given_time() {
    let note = Note::created_at("Dated".to_string(), "fixed time".to_string(), at(100, 5));
    assert_eq!(note.inserted_at, at(100, 5));
    assert_eq!(note.updated_at, at(100, 5));
    assert_eq!(note.status, Status::Doing);
}

#[test]
fn note_toggle_twice_restores_status_and_time_moves_forward() {
    let mut note = Note::new("Twice".to_string(), "toggle twice".to_string());
    let created = note.updated_at;
    note.toggle();
    let first = note.updated_at;
    assert!(created.not_after(&first));
    note.toggle();
    assert_eq!(note.status, Status::Doing);
    assert!(first.not_after(&note.updated_at));
    assert!(note.inserted_at.not_after(&note.updated_at));
}

#[test]
fn note_toggle_at_keeps_update_time_when_clock_goes_back() {
    let mut note = Note::created_at("Clock".to_string(), "clock skew".to_string(), at(1000, 0));
    note.toggle_at(at(2000, 10));
    assert_eq!(note.status, Status::Done);
    assert_eq!(note.updated_at, at(2000, 10));
    note.toggle_at(at(1500, 0));
    assert_eq!(note.status, Status::Doing);
    assert_eq!(note.updated_at, at(2000, 10));
    assert_eq!(note.inserted_at, at(1000, 0));
}

#[test]
fn add_tag_allows_duplicates_and_has_tag_is_exact() {
    let mut note = Note::new("Tags".to_string(), "with tags".to_string());
    assert!(!note.has_tag(&"Rust".to_string()));
    note.add_tag("Rust".to_string());
    assert!(note.has_tag(&"Rust".to_string()));
    note.add_tag("Rust".to_string());
    assert_eq!(note.tags.len(), 2);
    assert!(!note.has_tag(&"rust".to_string()));
    assert!(!note.has_tag(&"Rus".to_string()));
}

#[test]
fn toggle_checklist_element_out_of_range() {
    let mut note = Note::new("Empty".to_string(), "no checklist".to_string());
    assert_eq!(note.toggle_checklist_element(0), Err(IndexOutOfRange { position: 0, len: 0 }));
    note.add_checklist_element("Point 1".to_string());
    assert_eq!(note.toggle_checklist_element(1), Err(IndexOutOfRange { position: 1, len: 1 }));
    assert_eq!(note.checklist[0].status, Status::Doing);
}

#[test]
fn remove_checklist_element_leaves_tags_alone() {
    let mut note = Note::new("List".to_string(), "with checklist".to_string());
    note.add_tag("keep".to_string());
    note.add_checklist_element("first".to_string());
    note.add_checklist_element("second".to_string());
    assert_eq!(note.remove_checklist_element(0), Ok(()));
    assert_eq!(note.checklist.len(), 1);
    assert_eq!(note.checklist[0].description, "second");
    assert_eq!(note.tags.len(), 1);
    assert_eq!(note.remove_checklist_element(1), Err(IndexOutOfRange { position: 1, len: 1 }));
}

#[test]
fn remove_tag_shifts_and_rejects_bad_position() {
    let mut note = Note::new("Tags".to_string(), "remove one".to_string());
    note.add_tag("a".to_string());
    note.add_tag("b".to_string());
    note.add_tag("c".to_string());
    assert_eq!(note.remove_tag(1), Ok(()));
    assert_eq!(note.tags, vec!["a".to_string(), "c".to_string()]);
    assert_eq!(note.remove_tag(2), Err(IndexOutOfRange { position: 2, len: 2 }));
    assert_eq!(note.tags.len(), 2);
}

#[test]
fn note_clone_is_independent() {
    let mut note = Note::new("Original".to_string(), "to copy".to_string());
    note.add_tag("x".to_string());
    let mut copy = note.clone();
    assert_eq!(copy.title, "Original");
    assert_eq!(copy.tags, note.tags);
    copy.add_tag("y".to_string());
    assert_eq!(note.tags.len(), 1);
}
