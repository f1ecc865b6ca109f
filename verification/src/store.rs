//! The store: the canonical collections of entries and notes, the two id
//! counters, and the set of channels that listen for changes.

use crate::links::{
    contains_id, entries_after_sync, entries_touched, lemma_sync_links_contains, notes_after_sync,
    notes_touched, sync_entries_with_note, sync_notes_with_entry,
};
use crate::model::{Entry, EntryView, Note, NoteView};
use std::collections::HashSet;
use vstd::prelude::*;
use vstd::std_specs::hash::spec_hash_keys_iter;
use vstd::std_specs::iter::IteratorSpec;

verus! {

broadcast use vstd::std_specs::hash::group_hash_axioms;

/// The state of the application: every entry and note, the ids that the next
/// new records get, the key of the chat relay, and the subscribed channels.
pub struct TodoState {
    entries: Vec<Entry>,
    notes: Vec<Note>,
    next_entry_id: u64,
    next_note_id: u64,
    spider_api_key: Option<String>,
    connected_channels: HashSet<u32>,
}

/// What a [`TodoState`] is, as a mathematical value. The collections are in
/// insertion order.
pub struct StoreView {
    pub entries: Seq<EntryView>,
    pub notes: Seq<NoteView>,
    pub next_entry_id: u64,
    pub next_note_id: u64,
    pub spider_api_key: Option<Seq<char>>,
    pub channels: Set<u32>,
}

impl View for TodoState {
    type V = StoreView;

    closed spec fn view(&self) -> StoreView {
        StoreView {
            entries: self.entries.deep_view(),
            notes: self.notes.deep_view(),
            next_entry_id: self.next_entry_id,
            next_note_id: self.next_note_id,
            spider_api_key: self.spider_api_key.deep_view(),
            channels: self.connected_channels@,
        }
    }
}

/// Some entry of `entries` has the id `id`.
pub open spec fn has_entry(entries: Seq<EntryView>, id: u64) -> bool {
    exists|i: int| 0 <= i < entries.len() && (#[trigger] entries[i]).id == id
}

/// Some note of `notes` has the id `id`.
pub open spec fn has_note(notes: Seq<NoteView>, id: u64) -> bool {
    exists|i: int| 0 <= i < notes.len() && (#[trigger] notes[i]).id == id
}

/// `at` is the place of the first entry with the id `id`.
pub open spec fn is_entry_position(entries: Seq<EntryView>, id: u64, at: int) -> bool {
    &&& 0 <= at < entries.len()
    &&& entries[at].id == id
    &&& forall|k: int| 0 <= k < at ==> (#[trigger] entries[k]).id != id
}

/// `at` is the place of the first note with the id `id`.
pub open spec fn is_note_position(notes: Seq<NoteView>, id: u64, at: int) -> bool {
    &&& 0 <= at < notes.len()
    &&& notes[at].id == id
    &&& forall|k: int| 0 <= k < at ==> (#[trigger] notes[k]).id != id
}

/// The place of the first entry with the id `id`.
pub open spec fn entry_position(entries: Seq<EntryView>, id: u64) -> int {
    choose|at: int| is_entry_position(entries, id, at)
}

/// The place of the first note with the id `id`.
pub open spec fn note_position(notes: Seq<NoteView>, id: u64) -> int {
    choose|at: int| is_note_position(notes, id, at)
}

/// Among the first `upto` entries, one with the id `id` has a first place.
proof fn lemma_first_entry_upto(entries: Seq<EntryView>, id: u64, upto: int) -> (at: int)
    requires
        0 <= upto <= entries.len(),
        exists|i: int| 0 <= i < upto && (#[trigger] entries[i]).id == id,
    ensures
        is_entry_position(entries, id, at),
    decreases upto,
{
    if exists|i: int| 0 <= i < upto - 1 && (#[trigger] entries[i]).id == id {
        lemma_first_entry_upto(entries, id, upto - 1)
    } else {
        let k = choose|i: int| 0 <= i < upto && (#[trigger] entries[i]).id == id;
        k
    }
}

/// Among the first `upto` notes, one with the id `id` has a first place.
proof fn lemma_first_note_upto(notes: Seq<NoteView>, id: u64, upto: int) -> (at: int)
    requires
        0 <= upto <= notes.len(),
        exists|i: int| 0 <= i < upto && (#[trigger] notes[i]).id == id,
    ensures
        is_note_position(notes, id, at),
    decreases upto,
{
    if exists|i: int| 0 <= i < upto - 1 && (#[trigger] notes[i]).id == id {
        lemma_first_note_upto(notes, id, upto - 1)
    } else {
        let k = choose|i: int| 0 <= i < upto && (#[trigger] notes[i]).id == id;
        k
    }
}

/// Where some entry has the id `id`, a first one has it.
pub proof fn lemma_entry_position_exists(entries: Seq<EntryView>, id: u64)
    requires
        has_entry(entries, id),
    ensures
        is_entry_position(entries, id, entry_position(entries, id)),
{
    lemma_first_entry_upto(entries, id, entries.len() as int);
}

/// Where some note has the id `id`, a first one has it.
pub proof fn lemma_note_position_exists(notes: Seq<NoteView>, id: u64)
    requires
        has_note(notes, id),
    ensures
        is_note_position(notes, id, note_position(notes, id)),
{
    lemma_first_note_upto(notes, id, notes.len() as int);
}

impl StoreView {
    /// The store of a fresh application: no records, no channels, and 1 as
    /// the first id of either kind.
    pub open spec fn initial() -> StoreView {
        StoreView {
            entries: Seq::empty(),
            notes: Seq::empty(),
            next_entry_id: 1,
            next_note_id: 1,
            spider_api_key: None,
            channels: Set::empty(),
        }
    }

    /// No two entries share an id, and every id is below the counter.
    pub open spec fn entry_ids_ok(self) -> bool {
        &&& forall|i: int|
            0 <= i < self.entries.len() ==> (#[trigger] self.entries[i]).id < self.next_entry_id
        &&& forall|i: int, j: int|
            0 <= i < j < self.entries.len() ==> (#[trigger] self.entries[i]).id != (
            #[trigger] self.entries[j]).id
    }

    /// No two notes share an id, and every id is below the counter.
    pub open spec fn note_ids_ok(self) -> bool {
        &&& forall|i: int|
            0 <= i < self.notes.len() ==> (#[trigger] self.notes[i]).id < self.next_note_id
        &&& forall|i: int, j: int|
            0 <= i < j < self.notes.len() ==> (#[trigger] self.notes[i]).id != (
            #[trigger] self.notes[j]).id
    }

    /// The entry at `i` names the note at `j` exactly when that note names
    /// that entry.
    pub open spec fn pair_symmetric(self, i: int, j: int) -> bool {
        self.entries[i].note_ids.contains(self.notes[j].id)
            <==> self.notes[j].linked_entry_ids.contains(self.entries[i].id)
    }

    /// The relation between entries and notes is symmetric: an entry names a
    /// note exactly when the note names the entry.
    pub open spec fn links_symmetric(self) -> bool {
        forall|i: int, j: int|
            0 <= i < self.entries.len() && 0 <= j < self.notes.len()
                ==> #[trigger] self.pair_symmetric(i, j)
    }

    /// The relation is symmetric for every entry but those with the id
    /// `entry_id`.
    pub open spec fn links_symmetric_but_entry(self, entry_id: u64) -> bool {
        forall|i: int, j: int|
            0 <= i < self.entries.len() && 0 <= j < self.notes.len() && self.entries[i].id
                != entry_id ==> #[trigger] self.pair_symmetric(i, j)
    }

    /// The relation is symmetric for every note but those with the id
    /// `note_id`.
    pub open spec fn links_symmetric_but_note(self, note_id: u64) -> bool {
        forall|i: int, j: int|
            0 <= i < self.entries.len() && 0 <= j < self.notes.len() && self.notes[j].id
                != note_id ==> #[trigger] self.pair_symmetric(i, j)
    }

    /// Every entry with the id `entry_id` names, among the notes of the
    /// store, exactly those whose ids are in `desired`.
    pub open spec fn entry_names(self, entry_id: u64, desired: Set<u64>) -> bool {
        forall|i: int, j: int|
            0 <= i < self.entries.len() && 0 <= j < self.notes.len() && (
            #[trigger] self.entries[i]).id == entry_id ==> (self.entries[i].note_ids.contains(
                (#[trigger] self.notes[j]).id,
            ) <==> desired.contains(self.notes[j].id))
    }

    /// Every note with the id `note_id` names, among the entries of the
    /// store, exactly those whose ids are in `desired`.
    pub open spec fn note_names(self, note_id: u64, desired: Set<u64>) -> bool {
        forall|i: int, j: int|
            0 <= i < self.entries.len() && 0 <= j < self.notes.len() && (
            #[trigger] self.notes[j]).id == note_id ==> (self.notes[j].linked_entry_ids.contains(
                (#[trigger] self.entries[i]).id,
            ) <==> desired.contains(self.entries[i].id))
    }

    /// Only the links of the entry `entry_id` may be out of step: ids are in
    /// order, every other entry is in step with every note, and `desired`
    /// is what the entry names.
    pub open spec fn awaits_entry_sync(self, entry_id: u64, desired: Set<u64>) -> bool {
        &&& self.entry_ids_ok()
        &&& self.note_ids_ok()
        &&& self.links_symmetric_but_entry(entry_id)
        &&& self.entry_names(entry_id, desired)
    }

    /// Only the links of the note `note_id` may be out of step: ids are in
    /// order, every other note is in step with every entry, and `desired`
    /// is what the note names.
    pub open spec fn awaits_note_sync(self, note_id: u64, desired: Set<u64>) -> bool {
        &&& self.entry_ids_ok()
        &&& self.note_ids_ok()
        &&& self.links_symmetric_but_note(note_id)
        &&& self.note_names(note_id, desired)
    }

    /// The store is consistent: ids are unique and below their counters, and
    /// the relation between entries and notes is symmetric.
    pub open spec fn wf(self) -> bool {
        &&& self.entry_ids_ok()
        &&& self.note_ids_ok()
        &&& self.links_symmetric()
    }

    /// The store after the notes were synced with the entry `entry_id`.
    pub open spec fn with_notes_synced(self, entry_id: u64, desired: Set<u64>) -> StoreView {
        StoreView { notes: notes_after_sync(self.notes, entry_id, desired), ..self }
    }

    /// The store after the entries were synced with the note `note_id`.
    pub open spec fn with_entries_synced(self, note_id: u64, desired: Set<u64>) -> StoreView {
        StoreView { entries: entries_after_sync(self.entries, note_id, desired), ..self }
    }
}

/// Consistency is a matter of the records and the counters alone, and a
/// counter that moves up does no harm: a store with the records of a
/// consistent one, and counters that are no lower, is consistent.
pub proof fn lemma_wf_of_counters(a: StoreView, b: StoreView)
    requires
        a.entries == b.entries,
        a.notes == b.notes,
        a.next_entry_id <= b.next_entry_id,
        a.next_note_id <= b.next_note_id,
    ensures
        a.wf() ==> b.wf(),
{
    if a.wf() {
        assert forall|i: int, j: int|
            0 <= i < b.entries.len() && 0 <= j < b.notes.len()
                implies #[trigger] b.pair_symmetric(i, j) by {
            assert(a.pair_symmetric(i, j));
        }
    }
}

/// The sync with an entry restores the symmetry of the relation: where only
/// the links of the entry `entry_id` were out of step, and `desired` is what
/// that entry names, the store is consistent after the sync.
pub proof fn lemma_entry_sync_restores(s: StoreView, entry_id: u64, desired: Set<u64>)
    requires
        s.awaits_entry_sync(entry_id, desired),
    ensures
        s.with_notes_synced(entry_id, desired).wf(),
{
    let after = s.with_notes_synced(entry_id, desired);
    assert forall|i: int, j: int|
        0 <= i < after.entries.len() && 0 <= j < after.notes.len()
            implies #[trigger] after.pair_symmetric(i, j) by {
        let entry = s.entries[i];
        let note = s.notes[j];
        lemma_sync_links_contains(
            note.linked_entry_ids,
            entry_id,
            desired.contains(note.id),
            entry.id,
        );
        if entry.id != entry_id {
            assert(s.pair_symmetric(i, j));
        }
    }
}

/// The sync with a note restores the symmetry of the relation: where only
/// the links of the note `note_id` were out of step, and `desired` is what
/// that note names, the store is consistent after the sync.
pub proof fn lemma_note_sync_restores(s: StoreView, note_id: u64, desired: Set<u64>)
    requires
        s.awaits_note_sync(note_id, desired),
    ensures
        s.with_entries_synced(note_id, desired).wf(),
{
    let after = s.with_entries_synced(note_id, desired);
    assert forall|i: int, j: int|
        0 <= i < after.entries.len() && 0 <= j < after.notes.len()
            implies #[trigger] after.pair_symmetric(i, j) by {
        let entry = s.entries[i];
        let note = s.notes[j];
        lemma_sync_links_contains(entry.note_ids, note_id, desired.contains(entry.id), note.id);
        if note.id != note_id {
            assert(s.pair_symmetric(i, j));
        }
    }
}

impl Default for TodoState {
    /// The store of a fresh application.
    fn default() -> (state: Self)
        ensures
            state@ == StoreView::initial(),
            state@.wf(),
    {
        let state = TodoState {
            entries: Vec::new(),
            notes: Vec::new(),
            next_entry_id: 1,
            next_note_id: 1,
            spider_api_key: None,
            connected_channels: HashSet::new(),
        };
        assert(state.entries.deep_view() =~= Seq::<EntryView>::empty());
        assert(state.notes.deep_view() =~= Seq::<NoteView>::empty());
        state
    }
}

impl TodoState {
    /// The store that was saved as these parts: the two collections, the
    /// two counters and the key of the chat relay. No channel is subscribed.
    pub fn from_parts(
        entries: Vec<Entry>,
        notes: Vec<Note>,
        next_entry_id: u64,
        next_note_id: u64,
        spider_api_key: Option<String>,
    ) -> (state: TodoState)
        ensures
            state@ == (StoreView {
                entries: entries.deep_view(),
                notes: notes.deep_view(),
                next_entry_id,
                next_note_id,
                spider_api_key: spider_api_key.deep_view(),
                channels: Set::empty(),
            }),
    {
        TodoState {
            entries,
            notes,
            next_entry_id,
            next_note_id,
            spider_api_key,
            connected_channels: HashSet::new(),
        }
    }

    /// Whether the store is consistent: ids are unique and below their
    /// counters, and an entry names a note exactly when the note names the
    /// entry.
    pub fn is_consistent(&self) -> (ok: bool)
        ensures
            ok == self@.wf(),
    {
        let ghost s = self@;
        let mut i: usize = 0;
        while i < self.entries.len()
            invariant
                0 <= i <= self.entries.len(),
                s == self@,
                forall|a: int| 0 <= a < i ==> (#[trigger] s.entries[a]).id < s.next_entry_id,
                forall|a: int, b: int|
                    0 <= a < b < s.entries.len() && a < i ==> (#[trigger] s.entries[a]).id != (
                    #[trigger] s.entries[b]).id,
                forall|a: int, b: int|
                    0 <= a < i && 0 <= b < s.notes.len() ==> #[trigger] s.pair_symmetric(a, b),
            decreases self.entries.len() - i,
        {
            if self.entries[i].id >= self.next_entry_id {
                return false;
            }
            let mut k: usize = i + 1;
            while k < self.entries.len()
                invariant
                    i < k <= self.entries.len(),
                    s == self@,
                    forall|b: int|
                        i < b < k ==> (#[trigger] s.entries[b]).id != s.entries[i as int].id,
                decreases self.entries.len() - k,
            {
                if self.entries[k].id == self.entries[i].id {
                    assert(s.entries[i as int].id == s.entries[k as int].id);
                    return false;
                }
                k = k + 1;
            }
            let mut j: usize = 0;
            while j < self.notes.len()
                invariant
                    0 <= j <= self.notes.len(),
                    i < self.entries.len(),
                    s == self@,
                    forall|b: int| 0 <= b < j ==> #[trigger] s.pair_symmetric(i as int, b),
                decreases self.notes.len() - j,
            {
                let named = contains_id(&self.entries[i].note_ids, self.notes[j].id);
                let names = contains_id(&self.notes[j].linked_entry_ids, self.entries[i].id);
                if named != names {
                    assert(!s.pair_symmetric(i as int, j as int));
                    return false;
                }
                j = j + 1;
            }
            i = i + 1;
        }
        let mut j: usize = 0;
        while j < self.notes.len()
            invariant
                0 <= j <= self.notes.len(),
                s == self@,
                forall|a: int| 0 <= a < j ==> (#[trigger] s.notes[a]).id < s.next_note_id,
                forall|a: int, b: int|
                    0 <= a < b < s.notes.len() && a < j ==> (#[trigger] s.notes[a]).id != (
                    #[trigger] s.notes[b]).id,
            decreases self.notes.len() - j,
        {
            if self.notes[j].id >= self.next_note_id {
                assert(!(s.notes[j as int].id < s.next_note_id));
                return false;
            }
            let mut k: usize = j + 1;
            while k < self.notes.len()
                invariant
                    j < k <= self.notes.len(),
                    s == self@,
                    forall|b: int| j < b < k ==> (#[trigger] s.notes[b]).id != s.notes[j as int].id,
                decreases self.notes.len() - k,
            {
                if self.notes[k].id == self.notes[j].id {
                    assert(s.notes[j as int].id == s.notes[k as int].id);
                    return false;
                }
                k = k + 1;
            }
            j = j + 1;
        }
        true
    }

    /// The key of the chat relay, where one was stored.
    pub fn spider_api_key(&self) -> (key: Option<String>)
        ensures
            key.deep_view() == self@.spider_api_key,
    {
        self.spider_api_key.clone()
    }

    /// Stores the key of the chat relay, or forgets it.
    pub fn set_spider_api_key(&mut self, key: Option<String>)
        ensures
            final(self)@ == (StoreView { spider_api_key: key.deep_view(), ..old(self)@ }),
            old(self)@.wf() ==> final(self)@.wf(),
    {
        self.spider_api_key = key;
        proof {
            lemma_wf_of_counters(old(self)@, self@);
        }
    }

    /// All entries, in insertion order.
    pub fn entries(&self) -> (all: &Vec<Entry>)
        ensures
            all.deep_view() == self@.entries,
    {
        &self.entries
    }

    /// All notes, in insertion order.
    pub fn notes(&self) -> (all: &Vec<Note>)
        ensures
            all.deep_view() == self@.notes,
    {
        &self.notes
    }

    /// The id that the next new entry gets.
    pub fn entry_id_counter(&self) -> (next: u64)
        ensures
            next == self@.next_entry_id,
    {
        self.next_entry_id
    }

    /// The id that the next new note gets.
    pub fn note_id_counter(&self) -> (next: u64)
        ensures
            next == self@.next_note_id,
    {
        self.next_note_id
    }

    /// Allocates the id of a new entry: ids count up from 1 and are never
    /// handed out twice.
    pub fn next_entry_id(&mut self) -> (id: u64)
        requires
            old(self)@.next_entry_id < u64::MAX,
        ensures
            id == old(self)@.next_entry_id,
            final(self)@ == (StoreView { next_entry_id: (id + 1) as u64, ..old(self)@ }),
            old(self)@.wf() ==> final(self)@.wf(),
    {
        let id = self.next_entry_id;
        self.next_entry_id += 1;
        proof {
            lemma_wf_of_counters(old(self)@, self@);
        }
        id
    }

    /// Allocates the id of a new note: ids count up from 1 and are never
    /// handed out twice.
    pub fn next_note_id(&mut self) -> (id: u64)
        requires
            old(self)@.next_note_id < u64::MAX,
        ensures
            id == old(self)@.next_note_id,
            final(self)@ == (StoreView { next_note_id: (id + 1) as u64, ..old(self)@ }),
            old(self)@.wf() ==> final(self)@.wf(),
    {
        let id = self.next_note_id;
        self.next_note_id += 1;
        proof {
            lemma_wf_of_counters(old(self)@, self@);
        }
        id
    }

    /// The place of the first entry with the id `id`, if there is one.
    pub fn find_entry(&self, id: u64) -> (place: Option<usize>)
        ensures
            match place {
                Some(at) => is_entry_position(self@.entries, id, at as int),
                None => !has_entry(self@.entries, id),
            },
    {
        let mut i: usize = 0;
        while i < self.entries.len()
            invariant
                0 <= i <= self.entries.len(),
                forall|k: int| 0 <= k < i ==> (#[trigger] self@.entries[k]).id != id,
            decreases self.entries.len() - i,
        {
            if self.entries[i].id == id {
                return Some(i);
            }
            i = i + 1;
        }
        None
    }

    /// The place of the first note with the id `id`, if there is one.
    pub fn find_note(&self, id: u64) -> (place: Option<usize>)
        ensures
            match place {
                Some(at) => is_note_position(self@.notes, id, at as int),
                None => !has_note(self@.notes, id),
            },
    {
        let mut i: usize = 0;
        while i < self.notes.len()
            invariant
                0 <= i <= self.notes.len(),
                forall|k: int| 0 <= k < i ==> (#[trigger] self@.notes[k]).id != id,
            decreases self.notes.len() - i,
        {
            if self.notes[i].id == id {
                return Some(i);
            }
            i = i + 1;
        }
        None
    }

    /// Puts `entry` at the end of the entries.
    pub(crate) fn push_entry(&mut self, entry: Entry)
        ensures
            final(self)@ == (StoreView { entries: old(self)@.entries.push(entry@), ..old(self)@ }),
    {
        self.entries.push(entry);
        assert(self.entries.deep_view() =~= old(self).entries.deep_view().push(entry@));
    }

    /// Puts `note` at the end of the notes.
    pub(crate) fn push_note(&mut self, note: Note)
        ensures
            final(self)@ == (StoreView { notes: old(self)@.notes.push(note@), ..old(self)@ }),
    {
        self.notes.push(note);
        assert(self.notes.deep_view() =~= old(self).notes.deep_view().push(note@));
    }

    /// Puts `entry` in the place `at`, instead of the entry that stood there.
    pub(crate) fn replace_entry(&mut self, at: usize, entry: Entry)
        requires
            at < old(self)@.entries.len(),
        ensures
            final(self)@ == (StoreView {
                entries: old(self)@.entries.update(at as int, entry@),
                ..old(self)@
            }),
    {
        self.entries[at] = entry;
        assert(self.entries.deep_view() =~= old(self).entries.deep_view().update(
            at as int,
            entry@,
        ));
    }

    /// Puts `note` in the place `at`, instead of the note that stood there.
    pub(crate) fn replace_note(&mut self, at: usize, note: Note)
        requires
            at < old(self)@.notes.len(),
        ensures
            final(self)@ == (StoreView {
                notes: old(self)@.notes.update(at as int, note@),
                ..old(self)@
            }),
    {
        self.notes[at] = note;
        assert(self.notes.deep_view() =~= old(self).notes.deep_view().update(at as int, note@));
    }

    /// Takes out the entry in the place `at`. The others keep their order.
    pub(crate) fn remove_entry_at(&mut self, at: usize) -> (entry: Entry)
        requires
            at < old(self)@.entries.len(),
        ensures
            entry@ == old(self)@.entries[at as int],
            final(self)@ == (StoreView {
                entries: old(self)@.entries.remove(at as int),
                ..old(self)@
            }),
    {
        let entry = self.entries.remove(at);
        assert(self.entries.deep_view() =~= old(self).entries.deep_view().remove(at as int));
        entry
    }

    /// Takes out the note in the place `at`. The others keep their order.
    pub(crate) fn remove_note_at(&mut self, at: usize) -> (note: Note)
        requires
            at < old(self)@.notes.len(),
        ensures
            note@ == old(self)@.notes[at as int],
            final(self)@ == (StoreView { notes: old(self)@.notes.remove(at as int), ..old(self)@ }),
    {
        let note = self.notes.remove(at);
        assert(self.notes.deep_view() =~= old(self).notes.deep_view().remove(at as int));
        note
    }

    /// Brings every note in line with the entry `entry_id`, which names the
    /// notes `note_ids`: a note that the entry names gets the entry's id
    /// where it lacks it, any other note loses it. Gives back the notes that
    /// changed, in store order, as they are afterwards. Where only the
    /// links of this entry were out of step, the store is consistent
    /// afterwards.
    pub fn sync_entry_note_links(&mut self, entry_id: u64, note_ids: Vec<u64>) -> (touched: Vec<
        Note,
    >)
        ensures
            final(self)@ == old(self)@.with_notes_synced(entry_id, note_ids@.to_set()),
            touched.deep_view() == notes_touched(old(self)@.notes, entry_id, note_ids@.to_set()),
            old(self)@.awaits_entry_sync(entry_id, note_ids@.to_set()) ==> final(self)@.wf(),
    {
        proof {
            if self@.awaits_entry_sync(entry_id, note_ids@.to_set()) {
                lemma_entry_sync_restores(self@, entry_id, note_ids@.to_set());
            }
        }
        sync_notes_with_entry(&mut self.notes, entry_id, &note_ids)
    }

    /// Brings every entry in line with the note `note_id`, which names the
    /// entries `entry_ids`: an entry that the note names gets the note's id
    /// where it lacks it, any other entry loses it. Gives back the entries
    /// that changed, in store order, as they are afterwards. Where only the
    /// links of this note were out of step, the store is consistent
    /// afterwards.
    pub fn sync_note_entry_links(&mut self, note_id: u64, entry_ids: Vec<u64>) -> (touched: Vec<
        Entry,
    >)
        ensures
            final(self)@ == old(self)@.with_entries_synced(note_id, entry_ids@.to_set()),
            touched.deep_view() == entries_touched(
                old(self)@.entries,
                note_id,
                entry_ids@.to_set(),
            ),
            old(self)@.awaits_note_sync(note_id, entry_ids@.to_set()) ==> final(self)@.wf(),
    {
        proof {
            if self@.awaits_note_sync(note_id, entry_ids@.to_set()) {
                lemma_note_sync_restores(self@, note_id, entry_ids@.to_set());
            }
        }
        sync_entries_with_note(&mut self.entries, note_id, &entry_ids)
    }

    /// Whether any channel is subscribed.
    pub fn has_subscribers(&self) -> (any: bool)
        ensures
            any == (self@.channels != Set::<u32>::empty()),
    {
        !self.connected_channels.is_empty()
    }

    /// The subscribed channels, each once, in no particular order.
    pub fn subscribers(&self) -> (channels: Vec<u32>)
        ensures
            channels@.to_set() == self@.channels,
            channels@.no_duplicates(),
    {
        let mut channels: Vec<u32> = Vec::new();
        let ghost all: Seq<u32> = spec_hash_keys_iter(&self.connected_channels).remaining().unref();
        for channel in it: self.connected_channels.iter()
            invariant
                it.seq().unref() == all,
                channels@ == all.take(it.index()),
        {
            channels.push(*channel);
        }
        assert(channels@ =~= all);
        channels
    }

    /// Adds `channel_id` to the subscribed channels.
    pub(crate) fn add_channel(&mut self, channel_id: u32)
        ensures
            final(self)@ == (StoreView {
                channels: old(self)@.channels.insert(channel_id),
                ..old(self)@
            }),
    {
        self.connected_channels.insert(channel_id);
    }

    /// Takes `channel_id` out of the subscribed channels.
    pub(crate) fn drop_channel(&mut self, channel_id: u32)
        ensures
            final(self)@ == (StoreView {
                channels: old(self)@.channels.remove(channel_id),
                ..old(self)@
            }),
    {
        self.connected_channels.remove(&channel_id);
    }

    /// Forgets every subscribed channel.
    pub(crate) fn clear_channels(&mut self)
        ensures
            final(self)@ == (StoreView { channels: Set::empty(), ..old(self)@ }),
    {
        self.connected_channels.clear();
    }

    /// Users start with an empty slate: nothing is added.
    pub fn ensure_demo_content(&mut self)
        ensures
            final(self)@ == old(self)@,
    {
    }
}

} // verus!
