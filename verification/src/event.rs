//! What the consumer observes.

use crate::connection::Connection;
use crate::message::{ChatMessage, MessageView};
use vstd::prelude::*;

verus! {

/// One observation of the consumer. Events are handed over in the order in
/// which they were produced, each once.
#[derive(Debug, PartialEq, Eq)]
pub enum Event {
    /// A connection generation has begun; the handle sends for it.
    Connected(Connection),
    /// The current generation, or an attempt to begin one, has ended.
    Disconnected,
    /// A message has arrived from the broker.
    MessageReceived(ChatMessage),
}

/// An [`Event`], with the handle as its generation.
pub enum EventView {
    Connected(u64),
    Disconnected,
    MessageReceived(MessageView),
}

impl View for Event {
    type V = EventView;

    open spec fn view(&self) -> EventView {
        match self {
            Event::Connected(handle) => EventView::Connected(handle@),
            Event::Disconnected => EventView::Disconnected,
            Event::MessageReceived(message) => EventView::MessageReceived(message@),
        }
    }
}

impl Clone for Event {
    fn clone(&self) -> (copy: Self)
        ensures
            copy@ == self@,
    {
        match self {
            Event::Connected(handle) => Event::Connected(*handle),
            Event::Disconnected => Event::Disconnected,
            Event::MessageReceived(message) => Event::MessageReceived(message.clone()),
        }
    }
}

} // verus!
