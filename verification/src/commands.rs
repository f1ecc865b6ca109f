//! The commands on the store. Each one validates, changes the store, syncs
//! the links of the other side, derives what is derived, and says which
//! events the viewers are owed, in the order in which they are owed. A
//! command that fails changes nothing.

use crate::calendar::now_ts;
use crate::links::{entries_touched, notes_touched};
use crate::model::{
    Entry, EntryDraft, EntryDraftView, EntryStatus, EntryTimescale, EntryView, EventView, Note,
    NoteDraft, NoteDraftView, NoteView, RecordKind, TodoError, WsServerMessage,
};
use crate::store::{
    entry_position, has_entry, has_note, lemma_entry_position_exists, lemma_entry_sync_restores,
    lemma_note_position_exists, lemma_note_sync_restores, note_position, StoreView, TodoState,
};
use crate::text::{
    accent_for, is_blank, is_blank_text, random_accent_for, summarize_text, summary_of,
};
use crate::timescale::{compute_timescale, is_bucket_for, set_entry_timescale, with_timescale};
use vstd::prelude::*;

verus! {

/// What a command on an entry gives back: the entry as it now stands, and
/// the events for the viewers.
#[derive(Debug)]
pub struct EntryOutcome {
    pub entry: Entry,
    pub events: Vec<WsServerMessage>,
}

/// What a command on a note gives back: the note as it now stands, and the
/// events for the viewers.
#[derive(Debug)]
pub struct NoteOutcome {
    pub note: Note,
    pub events: Vec<WsServerMessage>,
}

/// One update event for each of `notes`, in their order.
pub open spec fn note_updates(notes: Seq<NoteView>) -> Seq<EventView> {
    Seq::new(notes.len(), |i: int| EventView::NoteUpdated { note: notes[i] })
}

/// One update event for each of `entries`, in their order.
pub open spec fn entry_updates(entries: Seq<EntryView>) -> Seq<EventView> {
    Seq::new(entries.len(), |i: int| EventView::EntryUpdated { entry: entries[i] })
}

/// The summary of the entry that a draft describes: the draft's own, or one
/// derived from the description where the draft's is blank.
pub open spec fn entry_summary(draft: EntryDraftView) -> Seq<char> {
    if is_blank_text(draft.summary) {
        summary_of(draft.description)
    } else {
        draft.summary
    }
}

/// The entry that a draft describes, with what a draft cannot say: the id,
/// the completion, and `scale`, the bucket that its due date has now.
pub open spec fn entry_from_draft(
    draft: EntryDraftView,
    id: u64,
    is_completed: bool,
    completed_at_ts: Option<i64>,
    scale: EntryTimescale,
) -> EntryView {
    with_timescale(
        EntryView {
            id,
            title: draft.title,
            summary: entry_summary(draft),
            description: draft.description,
            project: draft.project,
            status: draft.status,
            timescale: EntryTimescale::Someday,
            priority: draft.priority,
            due_ts: draft.due_ts,
            start_ts: draft.start_ts,
            dependencies: draft.dependencies,
            note_ids: draft.note_ids,
            assignees: draft.assignees,
            is_completed,
            completed_at_ts,
        },
        scale,
    )
}

/// An entry after its completion was set to `completed` at the time `now`:
/// completing marks it done, reopening leaves its status as it is.
pub open spec fn entry_toggled(
    entry: EntryView,
    completed: bool,
    now: i64,
    scale: EntryTimescale,
) -> EntryView {
    with_timescale(
        EntryView {
            is_completed: completed,
            completed_at_ts: if completed {
                Some(now)
            } else {
                None
            },
            status: if completed {
                EntryStatus::Done
            } else {
                entry.status
            },
            ..entry
        },
        scale,
    )
}

/// The accent of the note that a draft describes: the draft's own, or the
/// one that its tags stand for.
pub open spec fn note_accent(draft: NoteDraftView) -> Seq<char> {
    match draft.accent {
        Some(accent) => accent,
        None => accent_for(draft.tags),
    }
}

/// The note that a draft describes, with its id and the time of the edit.
/// Its summary is always derived from its content.
pub open spec fn note_from_draft(draft: NoteDraftView, id: u64, now: i64) -> NoteView {
    NoteView {
        id,
        title: draft.title,
        content: draft.content,
        pinned: draft.pinned,
        tags: draft.tags,
        linked_entry_ids: draft.linked_entry_ids,
        summary: summary_of(draft.content),
        accent: note_accent(draft),
        last_edited_ts: now,
    }
}

impl StoreView {
    /// Why a draft of an entry is refused, if it is.
    pub open spec fn save_entry_error(self, draft: EntryDraftView) -> Option<TodoError> {
        if is_blank_text(draft.title) {
            Some(TodoError::Validation(RecordKind::Entry))
        } else if draft.id matches Some(id) && !has_entry(self.entries, id) {
            Some(TodoError::NotFound(RecordKind::Entry))
        } else {
            None
        }
    }

    /// The entry that saving `draft` stores: a new one with the next id, or
    /// the entry that the draft names, with its fields replaced.
    pub open spec fn saved_entry(self, draft: EntryDraftView, scale: EntryTimescale) -> EntryView {
        match draft.id {
            Some(id) => {
                let old = self.entries[entry_position(self.entries, id)];
                entry_from_draft(draft, old.id, old.is_completed, old.completed_at_ts, scale)
            },
            None => entry_from_draft(draft, self.next_entry_id, false, None, scale),
        }
    }

    /// The store once the saved entry stands in it, before the notes follow.
    pub open spec fn with_entry_placed(
        self,
        draft: EntryDraftView,
        scale: EntryTimescale,
    ) -> StoreView {
        let entry = self.saved_entry(draft, scale);
        match draft.id {
            Some(id) => StoreView {
                entries: self.entries.update(entry_position(self.entries, id), entry),
                ..self
            },
            None => StoreView {
                entries: self.entries.push(entry),
                next_entry_id: (self.next_entry_id + 1) as u64,
                ..self
            },
        }
    }

    /// The store after `draft` was saved: the entry stands in it, and every
    /// note names the entry exactly when the entry names the note.
    pub open spec fn after_save_entry(
        self,
        draft: EntryDraftView,
        scale: EntryTimescale,
    ) -> StoreView {
        let entry = self.saved_entry(draft, scale);
        self.with_entry_placed(draft, scale).with_notes_synced(entry.id, entry.note_ids.to_set())
    }

    /// The events of saving `draft`: the notes that changed, then the entry.
    pub open spec fn save_entry_events(
        self,
        draft: EntryDraftView,
        scale: EntryTimescale,
    ) -> Seq<EventView> {
        let entry = self.saved_entry(draft, scale);
        note_updates(notes_touched(self.notes, entry.id, entry.note_ids.to_set())).push(
            EventView::EntryUpdated { entry },
        )
    }

    /// The due time of the entry `entry_id`; none where there is no such
    /// entry.
    pub open spec fn due_of(self, entry_id: u64) -> Option<i64> {
        if has_entry(self.entries, entry_id) {
            self.entries[entry_position(self.entries, entry_id)].due_ts
        } else {
            None
        }
    }

    /// The entry `entry_id` after its completion was set.
    pub open spec fn toggled_entry(
        self,
        entry_id: u64,
        completed: bool,
        now: i64,
        scale: EntryTimescale,
    ) -> EntryView {
        entry_toggled(
            self.entries[entry_position(self.entries, entry_id)],
            completed,
            now,
            scale,
        )
    }

    /// The store after the completion of the entry `entry_id` was set.
    pub open spec fn after_toggle(
        self,
        entry_id: u64,
        completed: bool,
        now: i64,
        scale: EntryTimescale,
    ) -> StoreView {
        StoreView {
            entries: self.entries.update(
                entry_position(self.entries, entry_id),
                self.toggled_entry(entry_id, completed, now, scale),
            ),
            ..self
        }
    }

    /// The store after the entry `entry_id` was deleted: the entry is gone,
    /// and no note names it any more.
    pub open spec fn after_delete_entry(self, entry_id: u64) -> StoreView {
        (StoreView {
            entries: self.entries.remove(entry_position(self.entries, entry_id)),
            ..self
        }).with_notes_synced(entry_id, Set::empty())
    }

    /// The events of deleting the entry `entry_id`: the removal, then the
    /// notes that changed.
    pub open spec fn delete_entry_events(self, entry_id: u64) -> Seq<EventView> {
        seq![EventView::EntryRemoved { entry_id }] + note_updates(
            notes_touched(self.notes, entry_id, Set::empty()),
        )
    }

    /// Why a draft of a note is refused, if it is.
    pub open spec fn save_note_error(self, draft: NoteDraftView) -> Option<TodoError> {
        if is_blank_text(draft.title) {
            Some(TodoError::Validation(RecordKind::Note))
        } else if draft.id matches Some(id) && !has_note(self.notes, id) {
            Some(TodoError::NotFound(RecordKind::Note))
        } else {
            None
        }
    }

    /// The note that saving `draft` stores: a new one with the next id, or
    /// the note that the draft names, with its fields replaced.
    pub open spec fn saved_note(self, draft: NoteDraftView, now: i64) -> NoteView {
        match draft.id {
            Some(id) => note_from_draft(draft, id, now),
            None => note_from_draft(draft, self.next_note_id, now),
        }
    }

    /// The store once the saved note stands in it, before the entries
    /// follow.
    pub open spec fn with_note_placed(self, draft: NoteDraftView, now: i64) -> StoreView {
        let note = self.saved_note(draft, now);
        match draft.id {
            Some(id) => StoreView {
                notes: self.notes.update(note_position(self.notes, id), note),
                ..self
            },
            None => StoreView {
                notes: self.notes.push(note),
                next_note_id: (self.next_note_id + 1) as u64,
                ..self
            },
        }
    }

    /// The store after `draft` was saved: the note stands in it, and every
    /// entry names the note exactly when the note names the entry.
    pub open spec fn after_save_note(self, draft: NoteDraftView, now: i64) -> StoreView {
        let note = self.saved_note(draft, now);
        self.with_note_placed(draft, now).with_entries_synced(
            note.id,
            note.linked_entry_ids.to_set(),
        )
    }

    /// The events of saving `draft`: the entries that changed, then the
    /// note.
    pub open spec fn save_note_events(self, draft: NoteDraftView, now: i64) -> Seq<EventView> {
        let note = self.saved_note(draft, now);
        entry_updates(entries_touched(self.entries, note.id, note.linked_entry_ids.to_set())).push(
            EventView::NoteUpdated { note },
        )
    }

    /// The store after the note `note_id` was deleted: the note is gone, and
    /// no entry names it any more.
    pub open spec fn after_delete_note(self, note_id: u64) -> StoreView {
        (StoreView {
            notes: self.notes.remove(note_position(self.notes, note_id)),
            ..self
        }).with_entries_synced(note_id, Set::empty())
    }

    /// The events of deleting the note `note_id`: the removal, then the
    /// entries that changed.
    pub open spec fn delete_note_events(self, note_id: u64) -> Seq<EventView> {
        seq![EventView::NoteRemoved { note_id }] + entry_updates(
            entries_touched(self.entries, note_id, Set::empty()),
        )
    }
}

/// What saving the entry `draft` owes, given `scale`, the bucket that the
/// draft's due date has now: a refused draft changes nothing; an accepted
/// one is stored, the notes follow, and the events name the notes that
/// changed before the entry.
pub open spec fn saves_entry(
    before: StoreView,
    draft: EntryDraftView,
    scale: EntryTimescale,
    result: Result<EntryOutcome, TodoError>,
    after: StoreView,
) -> bool {
    match before.save_entry_error(draft) {
        Some(error) => result == Err::<EntryOutcome, TodoError>(error) && after == before,
        None => {
            &&& result matches Ok(outcome) && outcome.entry@ == before.saved_entry(draft, scale)
                && outcome.events.deep_view() == before.save_entry_events(draft, scale)
            &&& after == before.after_save_entry(draft, scale)
        },
    }
}

/// What setting the completion of the entry `entry_id` owes, given the time
/// `now` and `scale`, the bucket that the entry's due date has now.
pub open spec fn toggles_entry(
    before: StoreView,
    entry_id: u64,
    completed: bool,
    now: i64,
    scale: EntryTimescale,
    result: Result<EntryOutcome, TodoError>,
    after: StoreView,
) -> bool {
    if has_entry(before.entries, entry_id) {
        let entry = before.toggled_entry(entry_id, completed, now, scale);
        &&& result matches Ok(outcome) && outcome.entry@ == entry && outcome.events.deep_view()
            == seq![EventView::EntryUpdated { entry }]
        &&& after == before.after_toggle(entry_id, completed, now, scale)
    } else {
        result == Err::<EntryOutcome, TodoError>(TodoError::NotFound(RecordKind::Entry)) && after
            == before
    }
}

/// What saving the note `draft` at the time `now` owes: a refused draft
/// changes nothing; an accepted one is stored, the entries follow, and the
/// events name the entries that changed before the note.
pub open spec fn saves_note(
    before: StoreView,
    draft: NoteDraftView,
    now: i64,
    result: Result<NoteOutcome, TodoError>,
    after: StoreView,
) -> bool {
    match before.save_note_error(draft) {
        Some(error) => result == Err::<NoteOutcome, TodoError>(error) && after == before,
        None => {
            &&& result matches Ok(outcome) && outcome.note@ == before.saved_note(draft, now)
                && outcome.events.deep_view() == before.save_note_events(draft, now)
            &&& after == before.after_save_note(draft, now)
        },
    }
}

/// What deleting the entry `entry_id` owes: where there is no such entry,
/// nothing changes; else the entry is gone, no note names it any more, and
/// the events name the removal before the notes that changed.
pub open spec fn deletes_entry(
    before: StoreView,
    entry_id: u64,
    result: Result<Vec<WsServerMessage>, TodoError>,
    after: StoreView,
) -> bool {
    if has_entry(before.entries, entry_id) {
        &&& result matches Ok(events) && events.deep_view() == before.delete_entry_events(entry_id)
        &&& after == before.after_delete_entry(entry_id)
    } else {
        result == Err::<Vec<WsServerMessage>, TodoError>(TodoError::NotFound(RecordKind::Entry))
            && after == before
    }
}

/// What deleting the note `note_id` owes: where there is no such note,
/// nothing changes; else the note is gone, no entry names it any more, and
/// the events name the removal before the entries that changed.
pub open spec fn deletes_note(
    before: StoreView,
    note_id: u64,
    result: Result<Vec<WsServerMessage>, TodoError>,
    after: StoreView,
) -> bool {
    if has_note(before.notes, note_id) {
        &&& result matches Ok(events) && events.deep_view() == before.delete_note_events(note_id)
        &&& after == before.after_delete_note(note_id)
    } else {
        result == Err::<Vec<WsServerMessage>, TodoError>(TodoError::NotFound(RecordKind::Note))
            && after == before
    }
}

/// Adds one update event for each of `notes` to `events`.
fn push_note_updates(events: &mut Vec<WsServerMessage>, notes: Vec<Note>)
    ensures
        final(events).deep_view() == old(events).deep_view() + note_updates(notes.deep_view()),
{
    let ghost start = events.deep_view();
    let mut i: usize = 0;
    while i < notes.len()
        invariant
            0 <= i <= notes.len(),
            events.deep_view() == start + note_updates(notes.deep_view().take(i as int)),
        decreases notes.len() - i,
    {
        let ghost so_far = events.deep_view();
        let event = WsServerMessage::NoteUpdated { note: notes[i].clone() };
        events.push(event);
        assert(events.deep_view() =~= so_far.push(event@));
        i = i + 1;
    }
}

/// Adds one update event for each of `entries` to `events`.
fn push_entry_updates(events: &mut Vec<WsServerMessage>, entries: Vec<Entry>)
    ensures
        final(events).deep_view() == old(events).deep_view() + entry_updates(entries.deep_view()),
{
    let ghost start = events.deep_view();
    let mut i: usize = 0;
    while i < entries.len()
        invariant
            0 <= i <= entries.len(),
            events.deep_view() == start + entry_updates(entries.deep_view().take(i as int)),
        decreases entries.len() - i,
    {
        let ghost so_far = events.deep_view();
        let event = WsServerMessage::EntryUpdated { entry: entries[i].clone() };
        events.push(event);
        assert(events.deep_view() =~= so_far.push(event@));
        i = i + 1;
    }
}

/// Builds the entry that `draft` describes.
fn build_entry(
    draft: EntryDraft,
    id: u64,
    is_completed: bool,
    completed_at_ts: Option<i64>,
    scale: EntryTimescale,
) -> (entry: Entry)
    ensures
        entry@ == entry_from_draft(draft@, id, is_completed, completed_at_ts, scale),
{
    let summary = if is_blank(draft.summary.as_str()) {
        summarize_text(draft.description.as_str())
    } else {
        draft.summary
    };
    let mut entry = Entry {
        id,
        title: draft.title,
        summary,
        description: draft.description,
        project: draft.project,
        status: draft.status,
        timescale: EntryTimescale::Someday,
        priority: draft.priority,
        due_ts: draft.due_ts,
        start_ts: draft.start_ts,
        dependencies: draft.dependencies,
        note_ids: draft.note_ids,
        assignees: draft.assignees,
        is_completed,
        completed_at_ts,
    };
    set_entry_timescale(&mut entry, scale);
    entry
}

/// Builds the note that `draft` describes.
fn build_note(draft: NoteDraft, id: u64, now: i64) -> (note: Note)
    ensures
        note@ == note_from_draft(draft@, id, now),
{
    let accent = match draft.accent {
        Some(accent) => accent,
        None => random_accent_for(draft.tags.as_slice()),
    };
    let summary = summarize_text(draft.content.as_str());
    Note {
        id,
        title: draft.title,
        content: draft.content,
        pinned: draft.pinned,
        tags: draft.tags,
        linked_entry_ids: draft.linked_entry_ids,
        summary,
        accent,
        last_edited_ts: now,
    }
}

/// Saving an entry keeps a consistent store consistent.
pub proof fn lemma_save_entry_keeps_wf(s: StoreView, draft: EntryDraftView, scale: EntryTimescale)
    requires
        s.wf(),
        s.save_entry_error(draft) is None,
        draft.id is None ==> s.next_entry_id < u64::MAX,
    ensures
        s.after_save_entry(draft, scale).wf(),
{
    let entry = s.saved_entry(draft, scale);
    let placed = s.with_entry_placed(draft, scale);
    if draft.id is Some {
        lemma_entry_position_exists(s.entries, draft.id->0);
    }
    assert forall|i: int, j: int|
        0 <= i < placed.entries.len() && 0 <= j < placed.notes.len() && placed.entries[i].id
            != entry.id implies #[trigger] placed.pair_symmetric(i, j) by {
        assert(s.pair_symmetric(i, j));
    }
    lemma_entry_sync_restores(placed, entry.id, entry.note_ids.to_set());
}

/// Setting the completion of an entry keeps a consistent store consistent.
pub proof fn lemma_toggle_keeps_wf(
    s: StoreView,
    entry_id: u64,
    completed: bool,
    now: i64,
    scale: EntryTimescale,
)
    requires
        s.wf(),
        has_entry(s.entries, entry_id),
    ensures
        s.after_toggle(entry_id, completed, now, scale).wf(),
{
    let after = s.after_toggle(entry_id, completed, now, scale);
    lemma_entry_position_exists(s.entries, entry_id);
    assert forall|i: int, j: int|
        0 <= i < after.entries.len() && 0 <= j < after.notes.len()
            implies #[trigger] after.pair_symmetric(i, j) by {
        assert(s.pair_symmetric(i, j));
    }
}

/// Deleting an entry keeps a consistent store consistent.
pub proof fn lemma_delete_entry_keeps_wf(s: StoreView, entry_id: u64)
    requires
        s.wf(),
        has_entry(s.entries, entry_id),
    ensures
        s.after_delete_entry(entry_id).wf(),
{
    let at = entry_position(s.entries, entry_id);
    lemma_entry_position_exists(s.entries, entry_id);
    let cut = StoreView { entries: s.entries.remove(at), ..s };
    let place = |i: int|
        if i < at {
            i
        } else {
            i + 1
        };
    assert forall|i: int| 0 <= i < cut.entries.len() implies #[trigger] cut.entries[i]
        == s.entries[place(i)] by {}
    assert forall|i: int, j: int|
        0 <= i < cut.entries.len() && 0 <= j < cut.notes.len()
            implies #[trigger] cut.pair_symmetric(i, j) by {
        assert(s.pair_symmetric(place(i), j));
    }
    lemma_entry_sync_restores(cut, entry_id, Set::empty());
}

/// Saving a note keeps a consistent store consistent.
pub proof fn lemma_save_note_keeps_wf(s: StoreView, draft: NoteDraftView, now: i64)
    requires
        s.wf(),
        s.save_note_error(draft) is None,
        draft.id is None ==> s.next_note_id < u64::MAX,
    ensures
        s.after_save_note(draft, now).wf(),
{
    let note = s.saved_note(draft, now);
    let placed = s.with_note_placed(draft, now);
    if draft.id is Some {
        lemma_note_position_exists(s.notes, draft.id->0);
    }
    assert forall|i: int, j: int|
        0 <= i < placed.entries.len() && 0 <= j < placed.notes.len() && placed.notes[j].id
            != note.id implies #[trigger] placed.pair_symmetric(i, j) by {
        assert(s.pair_symmetric(i, j));
    }
    lemma_note_sync_restores(placed, note.id, note.linked_entry_ids.to_set());
}

/// Deleting a note keeps a consistent store consistent.
pub proof fn lemma_delete_note_keeps_wf(s: StoreView, note_id: u64)
    requires
        s.wf(),
        has_note(s.notes, note_id),
    ensures
        s.after_delete_note(note_id).wf(),
{
    let at = note_position(s.notes, note_id);
    lemma_note_position_exists(s.notes, note_id);
    let cut = StoreView { notes: s.notes.remove(at), ..s };
    let place = |j: int|
        if j < at {
            j
        } else {
            j + 1
        };
    assert forall|j: int| 0 <= j < cut.notes.len() implies #[trigger] cut.notes[j]
        == s.notes[place(j)] by {}
    assert forall|i: int, j: int|
        0 <= i < cut.entries.len() && 0 <= j < cut.notes.len()
            implies #[trigger] cut.pair_symmetric(i, j) by {
        assert(s.pair_symmetric(i, place(j)));
    }
    lemma_note_sync_restores(cut, note_id, Set::empty());
}

impl TodoState {
    /// Creates or updates an entry from `draft`, where `scale` is the bucket
    /// that the draft's due date has now.
    pub fn save_entry_with(&mut self, draft: EntryDraft, scale: EntryTimescale) -> (result: Result<
        EntryOutcome,
        TodoError,
    >)
        requires
            draft.id is None && !is_blank_text(draft.title@) ==> old(self)@.next_entry_id
                < u64::MAX,
        ensures
            saves_entry(old(self)@, draft@, scale, result, final(self)@),
            old(self)@.wf() ==> final(self)@.wf(),
    {
        if is_blank(draft.title.as_str()) {
            return Err(TodoError::Validation(RecordKind::Entry));
        }
        let ghost before = self@;
        let ghost wanted = draft@;
        let entry = match draft.id {
            Some(id) => {
                let at = match self.find_entry(id) {
                    Some(at) => at,
                    None => {
                        return Err(TodoError::NotFound(RecordKind::Entry));
                    },
                };
                let old = &self.entries()[at];
                let is_completed = old.is_completed;
                let completed_at_ts = old.completed_at_ts;
                let entry = build_entry(draft, id, is_completed, completed_at_ts, scale);
                self.replace_entry(at, entry.clone());
                entry
            },
            None => {
                let id = self.next_entry_id();
                let entry = build_entry(draft, id, false, None, scale);
                self.push_entry(entry.clone());
                entry
            },
        };
        let touched = self.sync_entry_note_links(entry.id, entry.note_ids.clone());
        let mut events: Vec<WsServerMessage> = Vec::new();
        push_note_updates(&mut events, touched);
        let ghost so_far = events.deep_view();
        let last = WsServerMessage::EntryUpdated { entry: entry.clone() };
        events.push(last);
        proof {
            assert(events.deep_view() =~= so_far.push(last@));
            if before.wf() {
                lemma_save_entry_keeps_wf(before, wanted, scale);
            }
        }
        Ok(EntryOutcome { entry, events })
    }

    /// Creates or updates an entry from `draft`. The bucket of the entry is
    /// derived from its due date as of now, in the machine's time zone.
    pub fn save_entry(&mut self, draft: EntryDraft) -> (result: Result<EntryOutcome, TodoError>)
        requires
            draft.id is None && !is_blank_text(draft.title@) ==> old(self)@.next_entry_id
                < u64::MAX,
        ensures
            exists|scale: EntryTimescale|
                {
                    &&& is_bucket_for(draft.due_ts, scale)
                    &&& #[trigger] saves_entry(old(self)@, draft@, scale, result, final(self)@)
                },
            old(self)@.wf() ==> final(self)@.wf(),
    {
        let scale = compute_timescale(draft.due_ts);
        self.save_entry_with(draft, scale)
    }

    /// Creates or updates an entry from `draft` like [`TodoState::save_entry`],
    /// for any store and any draft: where the draft would make a new entry
    /// and the ids are used up, nothing is done and nothing comes back.
    pub fn try_save_entry(&mut self, draft: EntryDraft) -> (result: Option<
        Result<EntryOutcome, TodoError>,
    >)
        ensures
            result is None <==> draft.id is None && !is_blank_text(draft.title@) && old(
                self,
            )@.next_entry_id == u64::MAX,
            result is None ==> final(self)@ == old(self)@,
            result matches Some(saved) ==> exists|scale: EntryTimescale|
                {
                    &&& is_bucket_for(draft.due_ts, scale)
                    &&& #[trigger] saves_entry(old(self)@, draft@, scale, saved, final(self)@)
                },
            old(self)@.wf() ==> final(self)@.wf(),
    {
        if draft.id.is_none() && self.entry_id_counter() == u64::MAX && !is_blank(
            draft.title.as_str(),
        ) {
            return None;
        }
        Some(self.save_entry(draft))
    }

    /// Sets the completion of the entry `entry_id`, where `now` is the time
    /// of the change and `scale` the bucket that the entry's due date has
    /// now. Completing marks the entry done; reopening leaves its status.
    pub fn toggle_entry_completion_at(
        &mut self,
        entry_id: u64,
        completed: bool,
        now: i64,
        scale: EntryTimescale,
    ) -> (result: Result<EntryOutcome, TodoError>)
        ensures
            toggles_entry(old(self)@, entry_id, completed, now, scale, result, final(self)@),
            old(self)@.wf() ==> final(self)@.wf(),
    {
        let ghost before = self@;
        let at = match self.find_entry(entry_id) {
            Some(at) => at,
            None => {
                return Err(TodoError::NotFound(RecordKind::Entry));
            },
        };
        let mut entry = self.entries()[at].clone();
        entry.is_completed = completed;
        entry.completed_at_ts = if completed {
            entry.status = EntryStatus::Done;
            Some(now)
        } else {
            None
        };
        set_entry_timescale(&mut entry, scale);
        self.replace_entry(at, entry.clone());
        let mut events: Vec<WsServerMessage> = Vec::new();
        let event = WsServerMessage::EntryUpdated { entry: entry.clone() };
        events.push(event);
        proof {
            assert(events.deep_view() =~= seq![event@]);
            if before.wf() {
                lemma_toggle_keeps_wf(before, entry_id, completed, now, scale);
            }
        }
        Ok(EntryOutcome { entry, events })
    }

    /// Sets the completion of the entry `entry_id` as of now. The time of
    /// the change and the bucket of the entry come from the clock, in the
    /// machine's time zone.
    pub fn toggle_entry_completion(&mut self, entry_id: u64, completed: bool) -> (result: Result<
        EntryOutcome,
        TodoError,
    >)
        ensures
            exists|now: i64, scale: EntryTimescale|
                {
                    &&& is_bucket_for(old(self)@.due_of(entry_id), scale)
                    &&& #[trigger] toggles_entry(
                        old(self)@,
                        entry_id,
                        completed,
                        now,
                        scale,
                        result,
                        final(self)@,
                    )
                },
            old(self)@.wf() ==> final(self)@.wf(),
    {
        let due_ts = match self.find_entry(entry_id) {
            Some(at) => self.entries()[at].due_ts,
            None => None,
        };
        let scale = compute_timescale(due_ts);
        let now = now_ts();
        self.toggle_entry_completion_at(entry_id, completed, now, scale)
    }

    /// Deletes the entry `entry_id` and takes its id out of every note.
    pub fn delete_entry(&mut self, entry_id: u64) -> (result: Result<
        Vec<WsServerMessage>,
        TodoError,
    >)
        ensures
            deletes_entry(old(self)@, entry_id, result, final(self)@),
            old(self)@.wf() ==> final(self)@.wf(),
    {
        let ghost before = self@;
        let at = match self.find_entry(entry_id) {
            Some(at) => at,
            None => {
                return Err(TodoError::NotFound(RecordKind::Entry));
            },
        };
        let entry = self.remove_entry_at(at);
        let nothing: Vec<u64> = Vec::new();
        assert(nothing@.to_set() =~= Set::<u64>::empty());
        let touched = self.sync_entry_note_links(entry.id, nothing);
        let mut events: Vec<WsServerMessage> = Vec::new();
        let first = WsServerMessage::EntryRemoved { entry_id };
        events.push(first);
        assert(events.deep_view() =~= seq![first@]);
        push_note_updates(&mut events, touched);
        proof {
            if before.wf() {
                lemma_delete_entry_keeps_wf(before, entry_id);
            }
        }
        Ok(events)
    }

    /// Creates or updates a note from `draft`, edited at the time `now`.
    pub fn save_note_at(&mut self, draft: NoteDraft, now: i64) -> (result: Result<
        NoteOutcome,
        TodoError,
    >)
        requires
            draft.id is None && !is_blank_text(draft.title@) ==> old(self)@.next_note_id
                < u64::MAX,
        ensures
            saves_note(old(self)@, draft@, now, result, final(self)@),
            old(self)@.wf() ==> final(self)@.wf(),
    {
        if is_blank(draft.title.as_str()) {
            return Err(TodoError::Validation(RecordKind::Note));
        }
        let ghost before = self@;
        let ghost wanted = draft@;
        let note = match draft.id {
            Some(id) => {
                let at = match self.find_note(id) {
                    Some(at) => at,
                    None => {
                        return Err(TodoError::NotFound(RecordKind::Note));
                    },
                };
                let note = build_note(draft, id, now);
                self.replace_note(at, note.clone());
                note
            },
            None => {
                let id = self.next_note_id();
                let note = build_note(draft, id, now);
                self.push_note(note.clone());
                note
            },
        };
        let touched = self.sync_note_entry_links(note.id, note.linked_entry_ids.clone());
        let mut events: Vec<WsServerMessage> = Vec::new();
        push_entry_updates(&mut events, touched);
        let ghost so_far = events.deep_view();
        let last = WsServerMessage::NoteUpdated { note: note.clone() };
        events.push(last);
        proof {
            assert(events.deep_view() =~= so_far.push(last@));
            if before.wf() {
                lemma_save_note_keeps_wf(before, wanted, now);
            }
        }
        Ok(NoteOutcome { note, events })
    }

    /// Creates or updates a note from `draft`, edited now by the clock.
    pub fn save_note(&mut self, draft: NoteDraft) -> (result: Result<NoteOutcome, TodoError>)
        requires
            draft.id is None && !is_blank_text(draft.title@) ==> old(self)@.next_note_id
                < u64::MAX,
        ensures
            exists|now: i64| #[trigger] saves_note(old(self)@, draft@, now, result, final(self)@),
            old(self)@.wf() ==> final(self)@.wf(),
    {
        let now = now_ts();
        self.save_note_at(draft, now)
    }

    /// Creates or updates a note from `draft` like [`TodoState::save_note`],
    /// for any store and any draft: where the draft would make a new note
    /// and the ids are used up, nothing is done and nothing comes back.
    pub fn try_save_note(&mut self, draft: NoteDraft) -> (result: Option<
        Result<NoteOutcome, TodoError>,
    >)
        ensures
            result is None <==> draft.id is None && !is_blank_text(draft.title@) && old(
                self,
            )@.next_note_id == u64::MAX,
            result is None ==> final(self)@ == old(self)@,
            result matches Some(saved) ==> exists|now: i64| #[trigger]
                saves_note(old(self)@, draft@, now, saved, final(self)@),
            old(self)@.wf() ==> final(self)@.wf(),
    {
        if draft.id.is_none() && self.note_id_counter() == u64::MAX && !is_blank(
            draft.title.as_str(),
        ) {
            return None;
        }
        Some(self.save_note(draft))
    }

    /// Deletes the note `note_id` and takes its id out of every entry.
    pub fn delete_note(&mut self, note_id: u64) -> (result: Result<Vec<WsServerMessage>, TodoError>)
        ensures
            deletes_note(old(self)@, note_id, result, final(self)@),
            old(self)@.wf() ==> final(self)@.wf(),
    {
        let ghost before = self@;
        let at = match self.find_note(note_id) {
            Some(at) => at,
            None => {
                return Err(TodoError::NotFound(RecordKind::Note));
            },
        };
        self.remove_note_at(at);
        let nothing: Vec<u64> = Vec::new();
        assert(nothing@.to_set() =~= Set::<u64>::empty());
        let touched = self.sync_note_entry_links(note_id, nothing);
        let mut events: Vec<WsServerMessage> = Vec::new();
        let first = WsServerMessage::NoteRemoved { note_id };
        events.push(first);
        assert(events.deep_view() =~= seq![first@]);
        push_entry_updates(&mut events, touched);
        proof {
            if before.wf() {
                lemma_delete_note_keeps_wf(before, note_id);
            }
        }
        Ok(events)
    }
}

} // verus!
