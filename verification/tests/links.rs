use todo_core::links::{
    contains_id, id_set, remove_id, sync_entries_with_note, sync_notes_with_entry,
};
use todo_core::{
    Entry, EntryDraft, EntryPriority, EntryStatus, EntryTimescale, Note, NoteDraft, TodoState,
};

fn plain_note(id: u64, linked: Vec<u64>) -> Note {
    Note {
        id,
        title: format!("note {}", id),
        content: String::new(),
        pinned: false,
        tags: Vec::new(),
        linked_entry_ids: linked,
        summary: String::new(),
        accent: String::new(),
        last_edited_ts: 0,
    }
}

fn plain_entry(id: u64, note_ids: Vec<u64>) -> Entry {
    Entry {
        id,
        title: format!("entry {}", id),
        summary: String::new(),
        description: String::new(),
        project: None,
        status: EntryStatus::Backlog,
        timescale: EntryTimescale::Someday,
        priority: EntryPriority::Low,
        due_ts: None,
        start_ts: None,
        dependencies: Vec::new(),
        note_ids,
        assignees: Vec::new(),
        is_completed: false,
        completed_at_ts: None,
    }
}

fn linking_entry(title: &str) -> EntryDraft {
    EntryDraft {
        id: None,
        title: title.to_string(),
        summary: String::new(),
        description: String::new(),
        project: None,
        status: EntryStatus::Backlog,
        priority: EntryPriority::Low,
        due_ts: None,
        start_ts: None,
        dependencies: Vec::new(),
        note_ids: Vec::new(),
        assignees: Vec::new(),
    }
}

fn linking_note(title: &str) -> NoteDraft {
    NoteDraft {
        id: None,
        title: title.to_string(),
        content: String::new(),
        pinned: false,
        tags: Vec::new(),
        linked_entry_ids: Vec::new(),
        accent: None,
    }
}

#[test]
fn contains_id_finds_what_is_there() {
    assert!(contains_id(&vec![3, 1, 2], 1));
    assert!(contains_id(&vec![3, 1, 2], 3));
    assert!(!contains_id(&vec![3, 1, 2], 4));
    assert!(!contains_id(&Vec::new(), 0));
}

#[test]
fn remove_id_takes_out_every_occurrence_and_keeps_the_order() {
    let mut ids = vec![5, 1, 5, 2, 5];
    assert!(remove_id(&mut ids, 5));
    assert_eq!(ids, vec![1, 2]);
    assert!(!remove_id(&mut ids, 5));
    assert_eq!(ids, vec![1, 2]);
    let mut none: Vec<u64> = Vec::new();
    assert!(!remove_id(&mut none, 1));
    assert!(none.is_empty());
}

#[test]
fn id_set_holds_each_id_once() {
    let set = id_set(&vec![4, 4, 2, 9, 2]);
    assert_eq!(set.len(), 3);
    assert!(set.contains(&4) && set.contains(&2) && set.contains(&9));
    assert!(id_set(&Vec::new()).is_empty());
}

#[test]
fn syncing_notes_adds_missing_links_and_drops_unwanted_ones() {
    let mut notes = vec![
        plain_note(1, vec![]),
        plain_note(2, vec![7, 8]),
        plain_note(3, vec![8, 7, 8]),
        plain_note(4, vec![9]),
        plain_note(5, vec![7]),
    ];
    let touched = sync_notes_with_entry(&mut notes, 7, &vec![1, 2, 4, 4, 100]);
    let touched_ids: Vec<u64> = touched.iter().map(|note| note.id).collect();
    assert_eq!(touched_ids, vec![1, 3, 4, 5]);
    assert_eq!(notes[0].linked_entry_ids, vec![7]);
    assert_eq!(notes[1].linked_entry_ids, vec![7, 8]);
    assert_eq!(notes[2].linked_entry_ids, vec![8, 8]);
    assert_eq!(notes[3].linked_entry_ids, vec![9, 7]);
    assert!(notes[4].linked_entry_ids.is_empty());
    assert_eq!(touched[0].linked_entry_ids, vec![7]);
    assert_eq!(touched[1].linked_entry_ids, vec![8, 8]);
    assert_eq!(touched[2].linked_entry_ids, vec![9, 7]);
    assert!(touched[3].linked_entry_ids.is_empty());
    assert_eq!(notes[2].title, "note 3");
}

#[test]
fn syncing_entries_mirrors_syncing_notes() {
    let mut entries = vec![
        plain_entry(1, vec![4]),
        plain_entry(2, vec![]),
        plain_entry(3, vec![4, 5]),
    ];
    let touched = sync_entries_with_note(&mut entries, 4, &vec![2, 3]);
    let touched_ids: Vec<u64> = touched.iter().map(|entry| entry.id).collect();
    assert_eq!(touched_ids, vec![1, 2]);
    assert!(entries[0].note_ids.is_empty());
    assert_eq!(entries[1].note_ids, vec![4]);
    assert_eq!(entries[2].note_ids, vec![4, 5]);
}

#[test]
fn a_second_sync_with_the_same_wish_touches_nothing() {
    let mut state = TodoState::default();
    state.save_note_at(linking_note("n1"), 1).expect("a note");
    state.save_note_at(linking_note("n2"), 1).expect("a note");
    state.save_note_at(linking_note("n3"), 1).expect("a note");
    state.save_entry_with(linking_entry("e1"), EntryTimescale::Someday).expect("an entry");

    let first = state.sync_entry_note_links(1, vec![1, 3]);
    assert_eq!(first.len(), 2);
    assert_eq!(first[0].id, 1);
    assert_eq!(first[1].id, 3);
    let second = state.sync_entry_note_links(1, vec![1, 3]);
    assert!(second.is_empty());
    assert_eq!(state.notes()[0].linked_entry_ids, vec![1]);
    assert!(state.notes()[1].linked_entry_ids.is_empty());
    assert_eq!(state.notes()[2].linked_entry_ids, vec![1]);

    let cleared = state.sync_entry_note_links(1, Vec::new());
    assert_eq!(cleared.len(), 2);
    assert!(state.sync_entry_note_links(1, Vec::new()).is_empty());
}

#[test]
fn a_second_note_sync_with_the_same_wish_touches_nothing() {
    let mut state = TodoState::default();
    state.save_entry_with(linking_entry("e1"), EntryTimescale::Someday).expect("an entry");
    state.save_entry_with(linking_entry("e2"), EntryTimescale::Someday).expect("an entry");
    state.save_note_at(linking_note("n1"), 1).expect("a note");
    let first = state.sync_note_entry_links(1, vec![2]);
    assert_eq!(first.len(), 1);
    assert_eq!(first[0].id, 2);
    assert_eq!(first[0].note_ids, vec![1]);
    assert!(state.sync_note_entry_links(1, vec![2]).is_empty());
    assert_eq!(state.entries()[1].note_ids, vec![1]);
}

#[test]
fn a_sync_alone_can_leave_the_store_out_of_step() {
    let mut state = TodoState::default();
    state.save_note_at(linking_note("n1"), 1).expect("a note");
    state.save_entry_with(linking_entry("e1"), EntryTimescale::Someday).expect("an entry");
    assert!(state.is_consistent());
    state.sync_entry_note_links(1, vec![1]);
    assert!(!state.is_consistent());
    state.sync_entry_note_links(1, Vec::new());
    assert!(state.is_consistent());
}

#[test]
fn from_parts_takes_what_was_saved() {
    let state = TodoState::from_parts(
        vec![plain_entry(1, vec![2]), plain_entry(4, vec![])],
        vec![plain_note(2, vec![1])],
        5,
        3,
        Some("secret".to_string()),
    );
    assert_eq!(state.entries().len(), 2);
    assert_eq!(state.notes()[0].id, 2);
    assert_eq!(state.entry_id_counter(), 5);
    assert_eq!(state.note_id_counter(), 3);
    assert_eq!(state.spider_api_key().as_deref(), Some("secret"));
    assert!(!state.has_subscribers());
    assert!(state.is_consistent());
    assert_eq!(state.find_entry(4), Some(1));
    assert_eq!(state.find_entry(2), None);
    assert_eq!(state.find_note(2), Some(0));
    assert_eq!(state.find_note(1), None);
}

#[test]
fn is_consistent_sees_each_kind_of_fault() {
    let one_sided = TodoState::from_parts(
        vec![plain_entry(1, vec![2])],
        vec![plain_note(2, vec![])],
        2,
        3,
        None,
    );
    assert!(!one_sided.is_consistent());
    let other_side = TodoState::from_parts(
        vec![plain_entry(1, vec![])],
        vec![plain_note(2, vec![1])],
        2,
        3,
        None,
    );
    assert!(!other_side.is_consistent());
    let twice = TodoState::from_parts(
        vec![plain_entry(1, vec![]), plain_entry(1, vec![])],
        vec![],
        2,
        1,
        None,
    );
    assert!(!twice.is_consistent());
    let stale_counter = TodoState::from_parts(vec![plain_entry(3, vec![])], vec![], 3, 1, None);
    assert!(!stale_counter.is_consistent());
    let notes_twice = TodoState::from_parts(
        vec![],
        vec![plain_note(1, vec![]), plain_note(1, vec![])],
        1,
        2,
        None,
    );
    assert!(!notes_twice.is_consistent());
    let note_counter = TodoState::from_parts(vec![], vec![plain_note(1, vec![])], 1, 1, None);
    assert!(!note_counter.is_consistent());
    let dangling = TodoState::from_parts(
        vec![plain_entry(1, vec![9])],
        vec![plain_note(1, vec![8])],
        2,
        2,
        None,
    );
    assert!(dangling.is_consistent());
}
