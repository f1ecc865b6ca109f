//! The channels that listen for changes: who subscribes, who leaves, and to
//! whom an event goes. The transport itself is not here: each function says
//! what is to be sent, and the caller sends it.

use crate::model::{AppBootstrap, EventView, WsServerMessage};
use crate::store::{lemma_wf_of_counters, StoreView, TodoState};
use vstd::prelude::*;

verus! {

/// The kind of a frame that arrives on a channel.
#[derive(Debug, Clone, Copy, PartialEq, Eq, Structural)]
pub enum WsMessageKind {
    Text,
    Binary,
    Ping,
    Pong,
    Close,
}

/// What a viewer can ask for in a text frame.
#[derive(Debug, Clone, Copy, PartialEq, Eq, Structural)]
pub enum WsClientMessage {
    /// Register the channel and send it the current state.
    Subscribe,
    /// Keep the channel alive; nothing changes and nothing is sent.
    Ping,
}

/// One message for one channel.
#[derive(Debug)]
pub struct Delivery {
    pub channel_id: u32,
    pub message: WsServerMessage,
}

/// What a [`Delivery`] is, as a mathematical value.
pub struct DeliveryView {
    pub channel_id: u32,
    pub message: EventView,
}

impl View for Delivery {
    type V = DeliveryView;

    open spec fn view(&self) -> DeliveryView {
        DeliveryView { channel_id: self.channel_id, message: self.message@ }
    }
}

/// One message for every channel of a list: the message is serialized once
/// and each channel gets the same bytes.
#[derive(Debug)]
pub struct Fanout {
    pub channels: Vec<u32>,
    pub message: WsServerMessage,
}

/// The view of an optional delivery.
pub open spec fn reply_view(reply: Option<Delivery>) -> Option<DeliveryView> {
    match reply {
        Some(delivery) => Some(delivery@),
        None => None,
    }
}

/// A text frame that was understood as a request to subscribe.
pub open spec fn is_subscription(kind: WsMessageKind, request: Option<WsClientMessage>) -> bool {
    kind == WsMessageKind::Text && request == Some(WsClientMessage::Subscribe)
}

impl StoreView {
    /// The full state, as a message for the channel `channel_id`.
    pub open spec fn snapshot_for(self, channel_id: u32) -> DeliveryView {
        DeliveryView {
            channel_id,
            message: EventView::Snapshot { entries: self.entries, notes: self.notes },
        }
    }

    /// The subscribed channels after a frame of the kind `kind` came in on
    /// the channel `channel_id`: a subscription adds the channel, a close
    /// takes it out, anything else changes nothing.
    pub open spec fn channels_after_frame(
        self,
        channel_id: u32,
        kind: WsMessageKind,
        request: Option<WsClientMessage>,
    ) -> Set<u32> {
        if is_subscription(kind, request) {
            self.channels.insert(channel_id)
        } else if kind == WsMessageKind::Close {
            self.channels.remove(channel_id)
        } else {
            self.channels
        }
    }
}

impl TodoState {
    /// Starts the application: no channel of an earlier run is still
    /// subscribed. The records stay as they are.
    pub fn initialize(&mut self)
        ensures
            final(self)@ == (StoreView { channels: Set::empty(), ..old(self)@ }),
            old(self)@.wf() ==> final(self)@.wf(),
    {
        self.clear_channels();
        self.ensure_demo_content();
        proof {
            lemma_wf_of_counters(old(self)@, self@);
        }
    }

    /// Everything a viewer needs to start: all entries and all notes.
    pub fn bootstrap(&mut self, is_public_mode: bool) -> (start: AppBootstrap)
        ensures
            final(self)@ == old(self)@,
            start.entries.deep_view() == old(self)@.entries,
            start.notes.deep_view() == old(self)@.notes,
            start.is_public_mode == is_public_mode,
    {
        self.ensure_demo_content();
        let entries = self.entries().clone();
        let notes = self.notes().clone();
        AppBootstrap { entries, notes, is_public_mode }
    }

    /// The full state, as a message for the channel `channel_id`.
    pub fn send_snapshot(&self, channel_id: u32) -> (delivery: Delivery)
        ensures
            delivery@ == self@.snapshot_for(channel_id),
    {
        let entries = self.entries().clone();
        let notes = self.notes().clone();
        Delivery { channel_id, message: WsServerMessage::Snapshot { entries, notes } }
    }

    /// Handles a frame that came in on the channel `channel_id`. `request`
    /// is what the text of a text frame asks for, or nothing where the text
    /// was not understood. A subscription registers the channel and is
    /// answered with the full state; a close takes the channel out; any
    /// other frame changes nothing and gets no answer.
    pub fn websocket(
        &mut self,
        channel_id: u32,
        kind: WsMessageKind,
        request: Option<WsClientMessage>,
    ) -> (reply: Option<Delivery>)
        ensures
            final(self)@ == (StoreView {
                channels: old(self)@.channels_after_frame(channel_id, kind, request),
                ..old(self)@
            }),
            reply_view(reply) == if is_subscription(kind, request) {
                Some(old(self)@.snapshot_for(channel_id))
            } else {
                None
            },
            old(self)@.wf() ==> final(self)@.wf(),
    {
        let reply = match kind {
            WsMessageKind::Text => {
                match request {
                    Some(WsClientMessage::Subscribe) => {
                        self.add_channel(channel_id);
                        Some(self.send_snapshot(channel_id))
                    },
                    Some(WsClientMessage::Ping) => None,
                    None => None,
                }
            },
            WsMessageKind::Close => {
                self.drop_channel(channel_id);
                None
            },
            WsMessageKind::Pong | WsMessageKind::Ping | WsMessageKind::Binary => None,
        };
        proof {
            lemma_wf_of_counters(old(self)@, self@);
        }
        reply
    }

    /// Says to whom `message` goes: to every subscribed channel, each once.
    /// Where no channel is subscribed there is no plan: the message is
    /// dropped, and nothing needs to be serialized. The store stays as it
    /// is.
    pub fn fanout(&self, message: WsServerMessage) -> (plan: Option<Fanout>)
        ensures
            self@.channels == Set::<u32>::empty() <==> plan is None,
            plan matches Some(fanout) ==> {
                &&& fanout.message@ == message@
                &&& fanout.channels@.to_set() == self@.channels
                &&& fanout.channels@.no_duplicates()
            },
    {
        if !self.has_subscribers() {
            return None;
        }
        Some(Fanout { channels: self.subscribers(), message })
    }

    /// Announces `message` to the viewers: the plan of [`TodoState::fanout`],
    /// which the caller carries out.
    pub fn broadcast(&self, message: WsServerMessage) -> (plan: Option<Fanout>)
        ensures
            self@.channels == Set::<u32>::empty() <==> plan is None,
            plan matches Some(fanout) ==> {
                &&& fanout.message@ == message@
                &&& fanout.channels@.to_set() == self@.channels
                &&& fanout.channels@.no_duplicates()
            },
    {
        self.fanout(message)
    }
}

} // verus!
