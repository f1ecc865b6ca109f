//! Lists of record ids, and what it means to bring one in line with a wish.

use crate::model::{Entry, EntryView, Note, NoteView};
use std::collections::HashSet;
use vstd::prelude::*;

verus! {

broadcast use vstd::std_specs::hash::group_hash_axioms;

/// The test that keeps every id but `target`.
pub open spec fn is_other_than(target: u64) -> spec_fn(u64) -> bool {
    |id: u64| id != target
}

/// `links` with every occurrence of `target` taken out.
pub open spec fn without_id(links: Seq<u64>, target: u64) -> Seq<u64> {
    links.filter(is_other_than(target))
}

/// `links` brought in line with the wish that `target` be among them, or
/// not: a missing id is put at the end, an unwanted one leaves, and nothing
/// else moves.
pub open spec fn sync_links(links: Seq<u64>, target: u64, wanted: bool) -> Seq<u64> {
    if wanted {
        if links.contains(target) {
            links
        } else {
            links.push(target)
        }
    } else {
        without_id(links, target)
    }
}

/// The test for a note whose links to the entry `entry_id` are not what
/// `desired`, the ids of the notes that the entry names, asks for.
pub open spec fn note_needs_sync(entry_id: u64, desired: Set<u64>) -> spec_fn(NoteView) -> bool {
    |note: NoteView| note.linked_entry_ids.contains(entry_id) != desired.contains(note.id)
}

/// A note once its links to the entry `entry_id` are what `desired` asks
/// for.
pub open spec fn note_after_sync(note: NoteView, entry_id: u64, desired: Set<u64>) -> NoteView {
    NoteView {
        linked_entry_ids: sync_links(note.linked_entry_ids, entry_id, desired.contains(note.id)),
        ..note
    }
}

/// All of `notes`, each after the sync with the entry `entry_id`.
pub open spec fn notes_after_sync(notes: Seq<NoteView>, entry_id: u64, desired: Set<u64>) -> Seq<
    NoteView,
> {
    Seq::new(notes.len(), |i: int| note_after_sync(notes[i], entry_id, desired))
}

/// The notes that a sync with the entry `entry_id` changes, in store order,
/// as they are after it.
pub open spec fn notes_touched(notes: Seq<NoteView>, entry_id: u64, desired: Set<u64>) -> Seq<
    NoteView,
> {
    notes_after_sync(notes.filter(note_needs_sync(entry_id, desired)), entry_id, desired)
}

/// The test for an entry whose links to the note `note_id` are not what
/// `desired`, the ids of the entries that the note names, asks for.
pub open spec fn entry_needs_sync(note_id: u64, desired: Set<u64>) -> spec_fn(EntryView) -> bool {
    |entry: EntryView| entry.note_ids.contains(note_id) != desired.contains(entry.id)
}

/// An entry once its links to the note `note_id` are what `desired` asks
/// for.
pub open spec fn entry_after_sync(entry: EntryView, note_id: u64, desired: Set<u64>) -> EntryView {
    EntryView {
        note_ids: sync_links(entry.note_ids, note_id, desired.contains(entry.id)),
        ..entry
    }
}

/// All of `entries`, each after the sync with the note `note_id`.
pub open spec fn entries_after_sync(
    entries: Seq<EntryView>,
    note_id: u64,
    desired: Set<u64>,
) -> Seq<EntryView> {
    Seq::new(entries.len(), |i: int| entry_after_sync(entries[i], note_id, desired))
}

/// The entries that a sync with the note `note_id` changes, in store order,
/// as they are after it.
pub open spec fn entries_touched(
    entries: Seq<EntryView>,
    note_id: u64,
    desired: Set<u64>,
) -> Seq<EntryView> {
    entries_after_sync(entries.filter(entry_needs_sync(note_id, desired)), note_id, desired)
}

/// Filtering one element more either adds that element or changes nothing.
pub proof fn lemma_filter_step<A>(s: Seq<A>, keep: spec_fn(A) -> bool, i: int)
    requires
        0 <= i < s.len(),
    ensures
        s.take(i + 1).filter(keep) == if keep(s[i]) {
            s.take(i).filter(keep).push(s[i])
        } else {
            s.take(i).filter(keep)
        },
{
    reveal(Seq::filter);
    assert(s.take(i + 1).drop_last() =~= s.take(i));
}

/// Taking `target` out of a list that does not hold it leaves the list.
pub proof fn lemma_without_absent(links: Seq<u64>, target: u64)
    requires
        !links.contains(target),
    ensures
        without_id(links, target) == links,
    decreases links.len(),
{
    reveal(Seq::filter);
    if links.len() > 0 {
        let front = links.drop_last();
        lemma_without_absent(front, target);
    }
}

/// What is left after `target` was taken out holds the other ids, and them
/// only.
pub proof fn lemma_without_contains(links: Seq<u64>, target: u64, id: u64)
    ensures
        without_id(links, target).contains(id) <==> links.contains(id) && id != target,
    decreases links.len(),
{
    reveal(Seq::filter);
    if links.len() > 0 {
        let front = links.drop_last();
        let last = links.last();
        lemma_without_contains(front, target, id);
        assert(front.push(last) =~= links);
    }
}

/// After a sync the list holds `target` exactly when it was wanted, and
/// every other id exactly when it held it before.
pub proof fn lemma_sync_links_contains(links: Seq<u64>, target: u64, wanted: bool, id: u64)
    ensures
        sync_links(links, target, wanted).contains(id) <==> if id == target {
            wanted
        } else {
            links.contains(id)
        },
{
    if wanted {
        if !links.contains(target) {
            let grown = links.push(target);
            assert(grown[links.len() as int] == target);
            if links.contains(id) {
                let k = choose|k: int| 0 <= k < links.len() && links[k] == id;
                assert(grown[k] == id);
            }
        }
    } else {
        lemma_without_contains(links, target, id);
    }
}

/// A sync changes the list exactly when the list held `target` against the
/// wish, or lacked it against the wish.
pub proof fn lemma_sync_links_changes(links: Seq<u64>, target: u64, wanted: bool)
    ensures
        sync_links(links, target, wanted) == links <==> links.contains(target) == wanted,
{
    lemma_sync_links_contains(links, target, wanted, target);
    if links.contains(target) == wanted {
        if !wanted {
            lemma_without_absent(links, target);
        }
    }
}

/// Whether `target` is among `ids`.
pub fn contains_id(ids: &Vec<u64>, target: u64) -> (found: bool)
    ensures
        found == ids@.contains(target),
{
    let mut i: usize = 0;
    while i < ids.len()
        invariant
            0 <= i <= ids.len(),
            forall|k: int| 0 <= k < i ==> ids[k] != target,
        decreases ids.len() - i,
    {
        if ids[i] == target {
            return true;
        }
        i = i + 1;
    }
    false
}

/// Takes every occurrence of `target` out of `ids`, keeping the order of the
/// rest, and says whether there was one.
pub fn remove_id(ids: &mut Vec<u64>, target: u64) -> (removed: bool)
    ensures
        final(ids)@ == without_id(old(ids)@, target),
        removed == old(ids)@.contains(target),
{
    let mut kept: Vec<u64> = Vec::new();
    let mut removed = false;
    let mut i: usize = 0;
    while i < ids.len()
        invariant
            0 <= i <= ids.len(),
            ids@ == old(ids)@,
            kept@ == without_id(ids@.take(i as int), target),
            removed == ids@.take(i as int).contains(target),
        decreases ids.len() - i,
    {
        let id = ids[i];
        proof {
            lemma_filter_step(ids@, is_other_than(target), i as int);
            assert(ids@.take(i as int + 1)[i as int] == id);
        }
        if id != target {
            kept.push(id);
        } else {
            removed = true;
        }
        i = i + 1;
    }
    assert(ids@.take(i as int) =~= ids@);
    *ids = kept;
    removed
}

/// The set of the ids in `ids`.
pub fn id_set(ids: &Vec<u64>) -> (set: HashSet<u64>)
    ensures
        set@ == ids@.to_set(),
{
    let mut set: HashSet<u64> = HashSet::new();
    let mut i: usize = 0;
    while i < ids.len()
        invariant
            0 <= i <= ids.len(),
            forall|id: u64| set@.contains(id) <==> ids@.take(i as int).contains(id),
        decreases ids.len() - i,
    {
        let id = ids[i];
        proof {
            assert(ids@.take(i as int + 1)[i as int] == id);
        }
        set.insert(id);
        i = i + 1;
    }
    assert(ids@.take(i as int) =~= ids@);
    set
}

/// Brings every note in line with the entry `entry_id`, which names the
/// notes `note_ids`: a note that the entry names gets the entry's id where
/// it lacks it, any other note loses it. Gives back the notes that changed,
/// in their order, as they are afterwards.
pub fn sync_notes_with_entry(
    notes: &mut Vec<Note>,
    entry_id: u64,
    note_ids: &Vec<u64>,
) -> (touched: Vec<Note>)
    ensures
        final(notes).deep_view() == notes_after_sync(
            old(notes).deep_view(),
            entry_id,
            note_ids@.to_set(),
        ),
        touched.deep_view() == notes_touched(old(notes).deep_view(), entry_id, note_ids@.to_set()),
{
    let desired = id_set(note_ids);
    let mut touched: Vec<Note> = Vec::new();
    let ghost before = notes.deep_view();
    let ghost wish = note_ids@.to_set();
    let ghost stale = note_needs_sync(entry_id, wish);
    let mut i: usize = 0;
    while i < notes.len()
        invariant
            0 <= i <= notes.len(),
            before == old(notes).deep_view(),
            wish == note_ids@.to_set(),
            desired@ == wish,
            stale == note_needs_sync(entry_id, wish),
            notes.len() == before.len(),
            forall|k: int|
                0 <= k < i ==> (#[trigger] notes[k])@ == note_after_sync(before[k], entry_id, wish),
            forall|k: int| i <= k < notes.len() ==> (#[trigger] notes[k])@ == before[k],
            touched.deep_view() == notes_after_sync(
                before.take(i as int).filter(stale),
                entry_id,
                wish,
            ),
        decreases notes.len() - i,
    {
        let ghost note_before = notes[i as int]@;
        let ghost touched_before = touched.deep_view();
        let wanted = desired.contains(&notes[i].id);
        let mut dirty = false;
        if wanted {
            if !contains_id(&notes[i].linked_entry_ids, entry_id) {
                notes[i].linked_entry_ids.push(entry_id);
                dirty = true;
            }
        } else {
            dirty = remove_id(&mut notes[i].linked_entry_ids, entry_id);
        }
        proof {
            lemma_filter_step(before, stale, i as int);
        }
        if dirty {
            let copy = notes[i].clone();
            touched.push(copy);
            assert(touched.deep_view() =~= touched_before.push(copy@));
        }
        i = i + 1;
    }
    assert(before.take(i as int) =~= before);
    touched
}

/// Brings every entry in line with the note `note_id`, which names the
/// entries `entry_ids`: an entry that the note names gets the note's id
/// where it lacks it, any other entry loses it. Gives back the entries that
/// changed, in their order, as they are afterwards.
pub fn sync_entries_with_note(
    entries: &mut Vec<Entry>,
    note_id: u64,
    entry_ids: &Vec<u64>,
) -> (touched: Vec<Entry>)
    ensures
        final(entries).deep_view() == entries_after_sync(
            old(entries).deep_view(),
            note_id,
            entry_ids@.to_set(),
        ),
        touched.deep_view() == entries_touched(
            old(entries).deep_view(),
            note_id,
            entry_ids@.to_set(),
        ),
{
    let desired = id_set(entry_ids);
    let mut touched: Vec<Entry> = Vec::new();
    let ghost before = entries.deep_view();
    let ghost wish = entry_ids@.to_set();
    let ghost stale = entry_needs_sync(note_id, wish);
    let mut i: usize = 0;
    while i < entries.len()
        invariant
            0 <= i <= entries.len(),
            before == old(entries).deep_view(),
            wish == entry_ids@.to_set(),
            desired@ == wish,
            stale == entry_needs_sync(note_id, wish),
            entries.len() == before.len(),
            forall|k: int|
                0 <= k < i ==> (#[trigger] entries[k])@ == entry_after_sync(
                    before[k],
                    note_id,
                    wish,
                ),
            forall|k: int| i <= k < entries.len() ==> (#[trigger] entries[k])@ == before[k],
            touched.deep_view() == entries_after_sync(
                before.take(i as int).filter(stale),
                note_id,
                wish,
            ),
        decreases entries.len() - i,
    {
        let ghost entry_before = entries[i as int]@;
        let ghost touched_before = touched.deep_view();
        let wanted = desired.contains(&entries[i].id);
        let mut dirty = false;
        if wanted {
            if !contains_id(&entries[i].note_ids, note_id) {
                entries[i].note_ids.push(note_id);
                dirty = true;
            }
        } else {
            dirty = remove_id(&mut entries[i].note_ids, note_id);
        }
        proof {
            lemma_filter_step(before, stale, i as int);
        }
        if dirty {
            let copy = entries[i].clone();
            touched.push(copy);
            assert(touched.deep_view() =~= touched_before.push(copy@));
        }
        i = i + 1;
    }
    assert(before.take(i as int) =~= before);
    touched
}

} // verus!
