//! The consistency and propagation engine of a to-do application: entries and
//! notes that name one another, a time bucket derived for every entry, and
//! the change events that keep live viewers in step with the store.
//!
//! The store is one owned value, [`TodoState`]. Every command on it says in
//! its contract what the store is afterwards and which events are owed, over
//! the mathematical view of the store, [`store::StoreView`].

pub mod calendar;
pub mod commands;
pub mod hub;
pub mod json;
pub mod laws;
pub mod links;
pub mod model;
pub mod search;
pub mod spider;
pub mod store;
pub mod text;
pub mod timescale;

pub use calendar::CalendarDate;
pub use commands::{EntryOutcome, NoteOutcome};
pub use hub::{Delivery, Fanout, WsClientMessage, WsMessageKind};
pub use model::{
    AppBootstrap, Entry, EntryDraft, EntryPriority, EntryStatus, EntryTimescale, Note, NoteDraft,
    RecordKind, SearchAllResult, TodoError, WsServerMessage,
};
pub use json::JsonValue;
pub use spider::{
    ChatStep, SpiderApiKey, SpiderChatPayload, SpiderChatResult, SpiderConnectResult,
    SpiderConversationMetadata, SpiderMcpServerSummary, SpiderMcpServersResult, SpiderMessage,
    SpiderMessageContent, SpiderStatusInfo,
};
pub use store::TodoState;
pub use text::{random_accent_for, summarize_text};
pub use timescale::{
    classify, classify_in_week, compute_timescale, last_day_of_month, refresh_entry_timescale,
};
