//! The records of the store and their mathematical views.

use vstd::prelude::*;

verus! {

/// Where an entry stands in its workflow.
#[derive(Debug, Clone, Copy, PartialEq, Eq, Structural)]
pub enum EntryStatus {
    Backlog,
    UpNext,
    InProgress,
    Blocked,
    Review,
    Done,
    Archived,
}

/// How urgent an entry is to its owner.
#[derive(Debug, Clone, Copy, PartialEq, Eq, Structural)]
pub enum EntryPriority {
    Low,
    Medium,
    High,
}

/// The time bucket of an entry, derived from its due date and the current date.
#[derive(Debug, Clone, Copy, PartialEq, Eq, Structural)]
pub enum EntryTimescale {
    Overdue,
    Today,
    ThisWeek,
    ThisMonth,
    Later,
    Someday,
    Completed,
}

/// A trackable work item.
#[derive(Debug)]
pub struct Entry {
    pub id: u64,
    pub title: String,
    pub summary: String,
    pub description: String,
    pub project: Option<String>,
    pub status: EntryStatus,
    pub timescale: EntryTimescale,
    pub priority: EntryPriority,
    pub due_ts: Option<i64>,
    pub start_ts: Option<i64>,
    pub dependencies: Vec<u64>,
    pub note_ids: Vec<u64>,
    pub assignees: Vec<String>,
    pub is_completed: bool,
    pub completed_at_ts: Option<i64>,
}

/// What an [`Entry`] is, as a mathematical value.
pub struct EntryView {
    pub id: u64,
    pub title: Seq<char>,
    pub summary: Seq<char>,
    pub description: Seq<char>,
    pub project: Option<Seq<char>>,
    pub status: EntryStatus,
    pub timescale: EntryTimescale,
    pub priority: EntryPriority,
    pub due_ts: Option<i64>,
    pub start_ts: Option<i64>,
    pub dependencies: Seq<u64>,
    pub note_ids: Seq<u64>,
    pub assignees: Seq<Seq<char>>,
    pub is_completed: bool,
    pub completed_at_ts: Option<i64>,
}

impl View for Entry {
    type V = EntryView;

    open spec fn view(&self) -> EntryView {
        EntryView {
            id: self.id,
            title: self.title@,
            summary: self.summary@,
            description: self.description@,
            project: self.project.deep_view(),
            status: self.status,
            timescale: self.timescale,
            priority: self.priority,
            due_ts: self.due_ts,
            start_ts: self.start_ts,
            dependencies: self.dependencies@,
            note_ids: self.note_ids@,
            assignees: self.assignees.deep_view(),
            is_completed: self.is_completed,
            completed_at_ts: self.completed_at_ts,
        }
    }
}

impl DeepView for Entry {
    type V = EntryView;

    open spec fn deep_view(&self) -> EntryView {
        self@
    }
}

impl Clone for Entry {
    fn clone(&self) -> (copy: Self)
        ensures
            copy@ == self@,
    {
        Entry {
            id: self.id,
            title: self.title.clone(),
            summary: self.summary.clone(),
            description: self.description.clone(),
            project: self.project.clone(),
            status: self.status,
            timescale: self.timescale,
            priority: self.priority,
            due_ts: self.due_ts,
            start_ts: self.start_ts,
            dependencies: self.dependencies.clone(),
            note_ids: self.note_ids.clone(),
            assignees: self.assignees.clone(),
            is_completed: self.is_completed,
            completed_at_ts: self.completed_at_ts,
        }
    }
}

/// What a caller hands in to create or update an [`Entry`].
#[derive(Debug)]
pub struct EntryDraft {
    pub id: Option<u64>,
    pub title: String,
    pub summary: String,
    pub description: String,
    pub project: Option<String>,
    pub status: EntryStatus,
    pub priority: EntryPriority,
    pub due_ts: Option<i64>,
    pub start_ts: Option<i64>,
    pub dependencies: Vec<u64>,
    pub note_ids: Vec<u64>,
    pub assignees: Vec<String>,
}

/// What an [`EntryDraft`] is, as a mathematical value.
pub struct EntryDraftView {
    pub id: Option<u64>,
    pub title: Seq<char>,
    pub summary: Seq<char>,
    pub description: Seq<char>,
    pub project: Option<Seq<char>>,
    pub status: EntryStatus,
    pub priority: EntryPriority,
    pub due_ts: Option<i64>,
    pub start_ts: Option<i64>,
    pub dependencies: Seq<u64>,
    pub note_ids: Seq<u64>,
    pub assignees: Seq<Seq<char>>,
}

impl View for EntryDraft {
    type V = EntryDraftView;

    open spec fn view(&self) -> EntryDraftView {
        EntryDraftView {
            id: self.id,
            title: self.title@,
            summary: self.summary@,
            description: self.description@,
            project: self.project.deep_view(),
            status: self.status,
            priority: self.priority,
            due_ts: self.due_ts,
            start_ts: self.start_ts,
            dependencies: self.dependencies@,
            note_ids: self.note_ids@,
            assignees: self.assignees.deep_view(),
        }
    }
}

impl Clone for EntryDraft {
    fn clone(&self) -> (copy: Self)
        ensures
            copy@ == self@,
    {
        EntryDraft {
            id: self.id,
            title: self.title.clone(),
            summary: self.summary.clone(),
            description: self.description.clone(),
            project: self.project.clone(),
            status: self.status,
            priority: self.priority,
            due_ts: self.due_ts,
            start_ts: self.start_ts,
            dependencies: self.dependencies.clone(),
            note_ids: self.note_ids.clone(),
            assignees: self.assignees.clone(),
        }
    }
}

/// A free-form annotation that may be linked to entries.
#[derive(Debug)]
pub struct Note {
    pub id: u64,
    pub title: String,
    pub content: String,
    pub pinned: bool,
    pub tags: Vec<String>,
    pub linked_entry_ids: Vec<u64>,
    pub summary: String,
    pub accent: String,
    pub last_edited_ts: i64,
}

/// What a [`Note`] is, as a mathematical value.
pub struct NoteView {
    pub id: u64,
    pub title: Seq<char>,
    pub content: Seq<char>,
    pub pinned: bool,
    pub tags: Seq<Seq<char>>,
    pub linked_entry_ids: Seq<u64>,
    pub summary: Seq<char>,
    pub accent: Seq<char>,
    pub last_edited_ts: i64,
}

impl View for Note {
    type V = NoteView;

    open spec fn view(&self) -> NoteView {
        NoteView {
            id: self.id,
            title: self.title@,
            content: self.content@,
            pinned: self.pinned,
            tags: self.tags.deep_view(),
            linked_entry_ids: self.linked_entry_ids@,
            summary: self.summary@,
            accent: self.accent@,
            last_edited_ts: self.last_edited_ts,
        }
    }
}

impl DeepView for Note {
    type V = NoteView;

    open spec fn deep_view(&self) -> NoteView {
        self@
    }
}

impl Clone for Note {
    fn clone(&self) -> (copy: Self)
        ensures
            copy@ == self@,
    {
        Note {
            id: self.id,
            title: self.title.clone(),
            content: self.content.clone(),
            pinned: self.pinned,
            tags: self.tags.clone(),
            linked_entry_ids: self.linked_entry_ids.clone(),
            summary: self.summary.clone(),
            accent: self.accent.clone(),
            last_edited_ts: self.last_edited_ts,
        }
    }
}

/// What a caller hands in to create or update a [`Note`].
#[derive(Debug)]
pub struct NoteDraft {
    pub id: Option<u64>,
    pub title: String,
    pub content: String,
    pub pinned: bool,
    pub tags: Vec<String>,
    pub linked_entry_ids: Vec<u64>,
    pub accent: Option<String>,
}

/// What a [`NoteDraft`] is, as a mathematical value.
pub struct NoteDraftView {
    pub id: Option<u64>,
    pub title: Seq<char>,
    pub content: Seq<char>,
    pub pinned: bool,
    pub tags: Seq<Seq<char>>,
    pub linked_entry_ids: Seq<u64>,
    pub accent: Option<Seq<char>>,
}

impl View for NoteDraft {
    type V = NoteDraftView;

    open spec fn view(&self) -> NoteDraftView {
        NoteDraftView {
            id: self.id,
            title: self.title@,
            content: self.content@,
            pinned: self.pinned,
            tags: self.tags.deep_view(),
            linked_entry_ids: self.linked_entry_ids@,
            accent: self.accent.deep_view(),
        }
    }
}

impl Clone for NoteDraft {
    fn clone(&self) -> (copy: Self)
        ensures
            copy@ == self@,
    {
        NoteDraft {
            id: self.id,
            title: self.title.clone(),
            content: self.content.clone(),
            pinned: self.pinned,
            tags: self.tags.clone(),
            linked_entry_ids: self.linked_entry_ids.clone(),
            accent: self.accent.clone(),
        }
    }
}

/// Everything a viewer needs to start: all entries and all notes.
#[derive(Debug)]
pub struct AppBootstrap {
    pub entries: Vec<Entry>,
    pub notes: Vec<Note>,
    pub is_public_mode: bool,
}

/// The entries and notes that a search found.
#[derive(Debug)]
pub struct SearchAllResult {
    pub entries: Vec<Entry>,
    pub notes: Vec<Note>,
}

/// A change event for live viewers. Each carries the whole record, or the
/// id of the record that is gone.
#[derive(Debug)]
pub enum WsServerMessage {
    Snapshot { entries: Vec<Entry>, notes: Vec<Note> },
    EntryUpdated { entry: Entry },
    EntryRemoved { entry_id: u64 },
    NoteUpdated { note: Note },
    NoteRemoved { note_id: u64 },
}

/// What a [`WsServerMessage`] is, as a mathematical value.
pub enum EventView {
    Snapshot { entries: Seq<EntryView>, notes: Seq<NoteView> },
    EntryUpdated { entry: EntryView },
    EntryRemoved { entry_id: u64 },
    NoteUpdated { note: NoteView },
    NoteRemoved { note_id: u64 },
}

impl View for WsServerMessage {
    type V = EventView;

    open spec fn view(&self) -> EventView {
        match self {
            WsServerMessage::Snapshot { entries, notes } => EventView::Snapshot {
                entries: entries.deep_view(),
                notes: notes.deep_view(),
            },
            WsServerMessage::EntryUpdated { entry } => EventView::EntryUpdated { entry: entry@ },
            WsServerMessage::EntryRemoved { entry_id } => EventView::EntryRemoved {
                entry_id: *entry_id,
            },
            WsServerMessage::NoteUpdated { note } => EventView::NoteUpdated { note: note@ },
            WsServerMessage::NoteRemoved { note_id } => EventView::NoteRemoved {
                note_id: *note_id,
            },
        }
    }
}

impl DeepView for WsServerMessage {
    type V = EventView;

    open spec fn deep_view(&self) -> EventView {
        self@
    }
}

impl Clone for WsServerMessage {
    fn clone(&self) -> (copy: Self)
        ensures
            copy@ == self@,
    {
        match self {
            WsServerMessage::Snapshot { entries, notes } => WsServerMessage::Snapshot {
                entries: entries.clone(),
                notes: notes.clone(),
            },
            WsServerMessage::EntryUpdated { entry } => WsServerMessage::EntryUpdated {
                entry: entry.clone(),
            },
            WsServerMessage::EntryRemoved { entry_id } => WsServerMessage::EntryRemoved {
                entry_id: *entry_id,
            },
            WsServerMessage::NoteUpdated { note } => WsServerMessage::NoteUpdated {
                note: note.clone(),
            },
            WsServerMessage::NoteRemoved { note_id } => WsServerMessage::NoteRemoved {
                note_id: *note_id,
            },
        }
    }
}

/// The kind of record that an operation was about.
#[derive(Debug, Clone, Copy, PartialEq, Eq, Structural)]
pub enum RecordKind {
    Entry,
    Note,
}

/// Why a command was refused. A refused command changes nothing.
#[derive(Debug, Clone, Copy, PartialEq, Eq, Structural)]
pub enum TodoError {
    /// The draft's title is blank.
    Validation(RecordKind),
    /// No record has the id that the command names.
    NotFound(RecordKind),
}

impl TodoError {
    /// The message that a caller sees.
    pub fn message(&self) -> (text: String)
        ensures
            text@ == match *self {
                TodoError::Validation(RecordKind::Entry) => "Entries require a title."@,
                TodoError::Validation(RecordKind::Note) => "Notes require a title."@,
                TodoError::NotFound(RecordKind::Entry) => "Entry not found"@,
                TodoError::NotFound(RecordKind::Note) => "Note not found"@,
            },
    {
        match self {
            TodoError::Validation(RecordKind::Entry) => "Entries require a title.".to_owned(),
            TodoError::Validation(RecordKind::Note) => "Notes require a title.".to_owned(),
            TodoError::NotFound(RecordKind::Entry) => "Entry not found".to_owned(),
            TodoError::NotFound(RecordKind::Note) => "Note not found".to_owned(),
        }
    }
}

} // verus!
