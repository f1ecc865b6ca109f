//! Search over the store: a read-only scan for the records that hold a
//! query, without regard to case.

use crate::links::lemma_filter_step;
use crate::model::{Entry, EntryStatus, EntryView, Note, NoteView, SearchAllResult};
use crate::store::TodoState;
use crate::text::{contains_text, is_substring, is_wildcard, lowercased, to_lowercase};
use vstd::prelude::*;

verus! {

/// The text of an optional query: an absent query is an empty one.
pub open spec fn query_text(query: Option<String>) -> Seq<char> {
    match query {
        Some(text) => text@,
        None => Seq::empty(),
    }
}

/// A query that every record meets: the empty query and the wildcard `*`.
pub open spec fn matches_everything(query: Seq<char>) -> bool {
    query.len() == 0 || query == seq!['*']
}

/// `text` holds the query `query`, without regard to case.
pub open spec fn text_matches(text: Seq<char>, query: Seq<char>) -> bool {
    is_substring(lowercased(query), lowercased(text))
}

/// Some text of `texts` holds the query.
pub open spec fn any_text_matches(texts: Seq<Seq<char>>, query: Seq<char>) -> bool {
    exists|i: int| 0 <= i < texts.len() && text_matches(#[trigger] texts[i], query)
}

/// The test for the entries that a search for `query` finds: an archived
/// entry is never found; any other is found by a query that matches
/// everything, or that its title, summary, description, project or one of
/// its assignees holds.
pub open spec fn entry_matches(query: Seq<char>) -> spec_fn(EntryView) -> bool {
    |entry: EntryView|
        entry.status != EntryStatus::Archived && (matches_everything(query) || text_matches(
            entry.title,
            query,
        ) || text_matches(entry.summary, query) || text_matches(entry.description, query) || (
        entry.project matches Some(project) && text_matches(project, query)) || any_text_matches(
            entry.assignees,
            query,
        ))
}

/// The test for the notes that a search for `query` finds: a note is found
/// by a query that matches everything, or that its title, content, summary
/// or one of its tags holds.
pub open spec fn note_matches(query: Seq<char>) -> spec_fn(NoteView) -> bool {
    |note: NoteView|
        matches_everything(query) || text_matches(note.title, query) || text_matches(
            note.content,
            query,
        ) || text_matches(note.summary, query) || any_text_matches(note.tags, query)
}

/// Whether `text` holds a query whose lowercase form is `needle`.
fn holds_query(text: &str, needle: &str, Ghost(query): Ghost<Seq<char>>) -> (found: bool)
    requires
        needle@ == lowercased(query),
    ensures
        found == text_matches(text@, query),
{
    let lower = to_lowercase(text);
    contains_text(lower.as_str(), needle)
}

/// Whether some text of `texts` holds a query whose lowercase form is
/// `needle`.
fn any_holds_query(
    texts: &Vec<String>,
    needle: &str,
    Ghost(query): Ghost<Seq<char>>,
) -> (found: bool)
    requires
        needle@ == lowercased(query),
    ensures
        found == any_text_matches(texts.deep_view(), query),
{
    let mut i: usize = 0;
    while i < texts.len()
        invariant
            0 <= i <= texts.len(),
            needle@ == lowercased(query),
            forall|k: int| 0 <= k < i ==> !text_matches(#[trigger] texts.deep_view()[k], query),
        decreases texts.len() - i,
    {
        if holds_query(texts[i].as_str(), needle, Ghost(query)) {
            assert(text_matches(texts.deep_view()[i as int], query));
            return true;
        }
        i = i + 1;
    }
    false
}

/// Whether a search finds `entry`.
fn entry_is_found(
    entry: &Entry,
    match_all: bool,
    needle: &str,
    Ghost(query): Ghost<Seq<char>>,
) -> (found: bool)
    requires
        needle@ == lowercased(query),
        match_all == matches_everything(query),
    ensures
        found == entry_matches(query)(entry@),
{
    if entry.status == EntryStatus::Archived {
        return false;
    }
    if match_all {
        return true;
    }
    holds_query(entry.title.as_str(), needle, Ghost(query)) || holds_query(
        entry.summary.as_str(),
        needle,
        Ghost(query),
    ) || holds_query(entry.description.as_str(), needle, Ghost(query)) || (match &entry.project {
        Some(project) => holds_query(project.as_str(), needle, Ghost(query)),
        None => false,
    }) || any_holds_query(&entry.assignees, needle, Ghost(query))
}

/// Whether a search finds `note`.
fn note_is_found(
    note: &Note,
    match_all: bool,
    needle: &str,
    Ghost(query): Ghost<Seq<char>>,
) -> (found: bool)
    requires
        needle@ == lowercased(query),
        match_all == matches_everything(query),
    ensures
        found == note_matches(query)(note@),
{
    if match_all {
        return true;
    }
    holds_query(note.title.as_str(), needle, Ghost(query)) || holds_query(
        note.content.as_str(),
        needle,
        Ghost(query),
    ) || holds_query(note.summary.as_str(), needle, Ghost(query)) || any_holds_query(
        &note.tags,
        needle,
        Ghost(query),
    )
}

impl TodoState {
    /// Finds the entries and notes that hold `query`, without regard to
    /// case, in store order. An empty query and `*` find everything; an
    /// archived entry is never found.
    pub fn search_all(&self, query: Option<String>) -> (found: SearchAllResult)
        ensures
            found.entries.deep_view() == self@.entries.filter(entry_matches(query_text(query))),
            found.notes.deep_view() == self@.notes.filter(note_matches(query_text(query))),
            forall|i: int|
                0 <= i < found.entries.len() ==> (#[trigger] found.entries[i]).status
                    != EntryStatus::Archived,
    {
        let text = match query {
            Some(text) => text,
            None => String::new(),
        };
        let ghost wanted = text@;
        let needle = to_lowercase(text.as_str());
        let match_all = text.as_str().is_empty() || is_wildcard(text.as_str());
        let all_entries = self.entries();
        let all_notes = self.notes();
        let ghost finds_entry = entry_matches(wanted);
        let ghost finds_note = note_matches(wanted);

        let mut entries: Vec<Entry> = Vec::new();
        let mut i: usize = 0;
        while i < all_entries.len()
            invariant
                0 <= i <= all_entries.len(),
                needle@ == lowercased(wanted),
                match_all == matches_everything(wanted),
                finds_entry == entry_matches(wanted),
                entries.deep_view() == all_entries.deep_view().take(i as int).filter(finds_entry),
                forall|k: int|
                    0 <= k < entries.len() ==> (#[trigger] entries[k]).status
                        != EntryStatus::Archived,
            decreases all_entries.len() - i,
        {
            proof {
                lemma_filter_step(all_entries.deep_view(), finds_entry, i as int);
            }
            if entry_is_found(&all_entries[i], match_all, needle.as_str(), Ghost(wanted)) {
                entries.push(all_entries[i].clone());
            }
            i = i + 1;
        }
        assert(all_entries.deep_view().take(i as int) =~= all_entries.deep_view());

        let mut notes: Vec<Note> = Vec::new();
        let mut j: usize = 0;
        while j < all_notes.len()
            invariant
                0 <= j <= all_notes.len(),
                needle@ == lowercased(wanted),
                match_all == matches_everything(wanted),
                finds_note == note_matches(wanted),
                notes.deep_view() == all_notes.deep_view().take(j as int).filter(finds_note),
            decreases all_notes.len() - j,
        {
            proof {
                lemma_filter_step(all_notes.deep_view(), finds_note, j as int);
            }
            if note_is_found(&all_notes[j], match_all, needle.as_str(), Ghost(wanted)) {
                notes.push(all_notes[j].clone());
            }
            j = j + 1;
        }
        assert(all_notes.deep_view().take(j as int) =~= all_notes.deep_view());
        SearchAllResult { entries, notes }
    }
}

} // verus!
