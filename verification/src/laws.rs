//! What holds of the store whatever is done with it: repeated syncs change
//! nothing, a deletion leaves no reference behind, a blank title is always
//! refused, and ids are never handed out twice.

use crate::commands::{saves_entry, saves_note, EntryOutcome, NoteOutcome};
use crate::links::{
    entries_after_sync, entries_touched, entry_after_sync, entry_needs_sync,
    lemma_sync_links_changes, lemma_sync_links_contains, note_after_sync, note_needs_sync,
    notes_after_sync, notes_touched,
};
use crate::model::{
    EntryDraftView, EntryTimescale, EntryView, EventView, NoteDraftView, NoteView, RecordKind,
    TodoError,
};
use crate::store::{
    entry_position, has_entry, has_note, lemma_entry_position_exists, lemma_note_position_exists,
    note_position, StoreView,
};
use crate::text::is_blank_text;
use vstd::prelude::*;

verus! {

/// A filter that no element passes leaves nothing.
proof fn lemma_filter_none<A>(s: Seq<A>, keep: spec_fn(A) -> bool)
    requires
        forall|i: int| 0 <= i < s.len() ==> !keep(#[trigger] s[i]),
    ensures
        s.filter(keep) == Seq::<A>::empty(),
    decreases s.len(),
{
    reveal(Seq::filter);
    if s.len() > 0 {
        let front = s.drop_last();
        lemma_filter_none(front, keep);
    }
}

/// What passes a filter stands in the filtered sequence.
proof fn lemma_filter_keeps<A>(s: Seq<A>, keep: spec_fn(A) -> bool, i: int) -> (k: int)
    requires
        0 <= i < s.len(),
        keep(s[i]),
    ensures
        0 <= k < s.filter(keep).len(),
        s.filter(keep)[k] == s[i],
    decreases s.len(),
{
    reveal(Seq::filter);
    let front = s.drop_last();
    if i == s.len() - 1 {
        front.filter(keep).len() as int
    } else {
        lemma_filter_keeps(front, keep, i)
    }
}

/// The empty store is consistent.
pub proof fn lemma_initial_store_wf()
    ensures
        StoreView::initial().wf(),
{
}

/// Syncing the notes with an entry twice, with the same wish, changes
/// nothing the second time: no note is touched, and the notes stay as the
/// first sync left them.
pub proof fn lemma_entry_sync_idempotent(notes: Seq<NoteView>, entry_id: u64, desired: Set<u64>)
    ensures
        notes_touched(notes_after_sync(notes, entry_id, desired), entry_id, desired) == Seq::<
            NoteView,
        >::empty(),
        notes_after_sync(notes_after_sync(notes, entry_id, desired), entry_id, desired)
            == notes_after_sync(notes, entry_id, desired),
{
    let once = notes_after_sync(notes, entry_id, desired);
    let stale = note_needs_sync(entry_id, desired);
    assert forall|i: int| 0 <= i < once.len() implies !stale(#[trigger] once[i]) by {
        lemma_sync_links_contains(
            notes[i].linked_entry_ids,
            entry_id,
            desired.contains(notes[i].id),
            entry_id,
        );
    }
    lemma_filter_none(once, stale);
    assert forall|i: int| 0 <= i < once.len() implies note_after_sync(once[i], entry_id, desired)
        == once[i] by {
        lemma_sync_links_changes(
            once[i].linked_entry_ids,
            entry_id,
            desired.contains(once[i].id),
        );
    }
}

/// Syncing the entries with a note twice, with the same wish, changes
/// nothing the second time: no entry is touched, and the entries stay as
/// the first sync left them.
pub proof fn lemma_note_sync_idempotent(entries: Seq<EntryView>, note_id: u64, desired: Set<u64>)
    ensures
        entries_touched(entries_after_sync(entries, note_id, desired), note_id, desired) == Seq::<
            EntryView,
        >::empty(),
        entries_after_sync(entries_after_sync(entries, note_id, desired), note_id, desired)
            == entries_after_sync(entries, note_id, desired),
{
    let once = entries_after_sync(entries, note_id, desired);
    let stale = entry_needs_sync(note_id, desired);
    assert forall|i: int| 0 <= i < once.len() implies !stale(#[trigger] once[i]) by {
        lemma_sync_links_contains(
            entries[i].note_ids,
            note_id,
            desired.contains(entries[i].id),
            note_id,
        );
    }
    lemma_filter_none(once, stale);
    assert forall|i: int| 0 <= i < once.len() implies entry_after_sync(once[i], note_id, desired)
        == once[i] by {
        lemma_sync_links_changes(
            once[i].note_ids,
            note_id,
            desired.contains(once[i].id),
        );
    }
}

/// Deleting an entry cascades: afterwards no note names the entry, and
/// every note that named it is among the events, as it is afterwards. In a
/// consistent store these are the notes that the entry named.
pub proof fn lemma_delete_entry_cascades(s: StoreView, entry_id: u64)
    requires
        has_entry(s.entries, entry_id),
    ensures
        forall|j: int|
            0 <= j < s.after_delete_entry(entry_id).notes.len() ==> !(
            #[trigger] s.after_delete_entry(entry_id).notes[j]).linked_entry_ids.contains(entry_id),
        forall|j: int|
            0 <= j < s.notes.len() && (#[trigger] s.notes[j]).linked_entry_ids.contains(entry_id)
                ==> s.delete_entry_events(entry_id).contains(
                EventView::NoteUpdated {
                    note: note_after_sync(s.notes[j], entry_id, Set::empty()),
                },
            ),
        s.wf() ==> forall|j: int|
            0 <= j < s.notes.len() && s.entries[entry_position(
                s.entries,
                entry_id,
            )].note_ids.contains((#[trigger] s.notes[j]).id) ==> s.delete_entry_events(
                entry_id,
            ).contains(
                EventView::NoteUpdated {
                    note: note_after_sync(s.notes[j], entry_id, Set::empty()),
                },
            ),
{
    let after = s.after_delete_entry(entry_id);
    let nothing = Set::<u64>::empty();
    let stale = note_needs_sync(entry_id, nothing);
    let events = s.delete_entry_events(entry_id);
    let touched = notes_touched(s.notes, entry_id, nothing);
    assert forall|j: int| 0 <= j < after.notes.len() implies !(
    #[trigger] after.notes[j]).linked_entry_ids.contains(entry_id) by {}
    assert forall|j: int|
        0 <= j < s.notes.len() && (#[trigger] s.notes[j]).linked_entry_ids.contains(
            entry_id,
        ) implies events.contains(
        EventView::NoteUpdated { note: note_after_sync(s.notes[j], entry_id, nothing) },
    ) by {
        let k = lemma_filter_keeps(s.notes, stale, j);
        assert(events[k + 1] == EventView::NoteUpdated { note: touched[k] });
    }
    if s.wf() {
        let at = entry_position(s.entries, entry_id);
        lemma_entry_position_exists(s.entries, entry_id);
        assert forall|j: int|
            0 <= j < s.notes.len() && s.entries[at].note_ids.contains(
                (#[trigger] s.notes[j]).id,
            ) implies events.contains(
            EventView::NoteUpdated { note: note_after_sync(s.notes[j], entry_id, nothing) },
        ) by {
            assert(s.pair_symmetric(at, j));
        }
    }
}

/// Deleting a note cascades: afterwards no entry names the note, and every
/// entry that named it is among the events, as it is afterwards. In a
/// consistent store these are the entries that the note named.
pub proof fn lemma_delete_note_cascades(s: StoreView, note_id: u64)
    requires
        has_note(s.notes, note_id),
    ensures
        forall|i: int|
            0 <= i < s.after_delete_note(note_id).entries.len() ==> !(
            #[trigger] s.after_delete_note(note_id).entries[i]).note_ids.contains(note_id),
        forall|i: int|
            0 <= i < s.entries.len() && (#[trigger] s.entries[i]).note_ids.contains(note_id)
                ==> s.delete_note_events(note_id).contains(
                EventView::EntryUpdated {
                    entry: entry_after_sync(s.entries[i], note_id, Set::empty()),
                },
            ),
        s.wf() ==> forall|i: int|
            0 <= i < s.entries.len() && s.notes[note_position(
                s.notes,
                note_id,
            )].linked_entry_ids.contains((#[trigger] s.entries[i]).id) ==> s.delete_note_events(
                note_id,
            ).contains(
                EventView::EntryUpdated {
                    entry: entry_after_sync(s.entries[i], note_id, Set::empty()),
                },
            ),
{
    let after = s.after_delete_note(note_id);
    let nothing = Set::<u64>::empty();
    let stale = entry_needs_sync(note_id, nothing);
    let events = s.delete_note_events(note_id);
    let touched = entries_touched(s.entries, note_id, nothing);
    assert forall|i: int| 0 <= i < after.entries.len() implies !(
    #[trigger] after.entries[i]).note_ids.contains(note_id) by {}
    assert forall|i: int|
        0 <= i < s.entries.len() && (#[trigger] s.entries[i]).note_ids.contains(
            note_id,
        ) implies events.contains(
        EventView::EntryUpdated { entry: entry_after_sync(s.entries[i], note_id, nothing) },
    ) by {
        let k = lemma_filter_keeps(s.entries, stale, i);
        assert(events[k + 1] == EventView::EntryUpdated { entry: touched[k] });
    }
    if s.wf() {
        let at = note_position(s.notes, note_id);
        lemma_note_position_exists(s.notes, note_id);
        assert forall|i: int|
            0 <= i < s.entries.len() && s.notes[at].linked_entry_ids.contains(
                (#[trigger] s.entries[i]).id,
            ) implies events.contains(
            EventView::EntryUpdated { entry: entry_after_sync(s.entries[i], note_id, nothing) },
        ) by {
            assert(s.pair_symmetric(i, at));
        }
    }
}

/// A draft of an entry with a blank title is refused, whatever else it
/// holds, and the store stays as it was.
pub proof fn lemma_blank_entry_title_refused(
    before: StoreView,
    draft: EntryDraftView,
    scale: EntryTimescale,
    result: Result<EntryOutcome, TodoError>,
    after: StoreView,
)
    requires
        is_blank_text(draft.title),
        saves_entry(before, draft, scale, result, after),
    ensures
        result == Err::<EntryOutcome, TodoError>(TodoError::Validation(RecordKind::Entry)),
        after == before,
{
}

/// A draft of a note with a blank title is refused, whatever else it holds,
/// and the store stays as it was.
pub proof fn lemma_blank_note_title_refused(
    before: StoreView,
    draft: NoteDraftView,
    now: i64,
    result: Result<NoteOutcome, TodoError>,
    after: StoreView,
)
    requires
        is_blank_text(draft.title),
        saves_note(before, draft, now, result, after),
    ensures
        result == Err::<NoteOutcome, TodoError>(TodoError::Validation(RecordKind::Note)),
        after == before,
{
}

/// Entry ids count up and are never reused: a new entry gets the id of the
/// counter, which in a consistent store no entry has; the next new entry
/// gets the id after it, whether or not an entry was deleted in between.
/// In a fresh store the first id is 1.
pub proof fn lemma_entry_ids_count_up(
    s: StoreView,
    first: EntryDraftView,
    first_scale: EntryTimescale,
    victim: u64,
    second: EntryDraftView,
    second_scale: EntryTimescale,
)
    requires
        first.id is None,
        second.id is None,
        !is_blank_text(first.title),
        !is_blank_text(second.title),
        s.next_entry_id + 1 < u64::MAX,
    ensures
        s.saved_entry(first, first_scale).id == s.next_entry_id,
        s.wf() ==> !has_entry(s.entries, s.next_entry_id),
        s == StoreView::initial() ==> s.saved_entry(first, first_scale).id == 1,
        ({
            let stored = s.after_save_entry(first, first_scale);
            let later = if has_entry(stored.entries, victim) {
                stored.after_delete_entry(victim)
            } else {
                stored
            };
            later.saved_entry(second, second_scale).id == s.saved_entry(first, first_scale).id + 1
        }),
{
}

/// Note ids count up and are never reused: a new note gets the id of the
/// counter, which in a consistent store no note has; the next new note gets
/// the id after it, whether or not a note was deleted in between. In a
/// fresh store the first id is 1.
pub proof fn lemma_note_ids_count_up(
    s: StoreView,
    first: NoteDraftView,
    first_now: i64,
    victim: u64,
    second: NoteDraftView,
    second_now: i64,
)
    requires
        first.id is None,
        second.id is None,
        !is_blank_text(first.title),
        !is_blank_text(second.title),
        s.next_note_id + 1 < u64::MAX,
    ensures
        s.saved_note(first, first_now).id == s.next_note_id,
        s.wf() ==> !has_note(s.notes, s.next_note_id),
        s == StoreView::initial() ==> s.saved_note(first, first_now).id == 1,
        ({
            let stored = s.after_save_note(first, first_now);
            let later = if has_note(stored.notes, victim) {
                stored.after_delete_note(victim)
            } else {
                stored
            };
            later.saved_note(second, second_now).id == s.saved_note(first, first_now).id + 1
        }),
{
}

} // verus!
