//! The bounded first-in, first-out queue of outbound messages.

use crate::message::{ChatMessage, MessageView};
use std::collections::VecDeque;
use vstd::prelude::*;

verus! {

/// The views of the messages of `items`, in the same order.
pub open spec fn views(items: Seq<ChatMessage>) -> Seq<MessageView> {
    items.map_values(|message: ChatMessage| message@)
}

/// Messages waiting to be published, oldest first, never more than `capacity`.
pub struct OutboundQueue {
    items: VecDeque<ChatMessage>,
    capacity: usize,
}

impl View for OutboundQueue {
    type V = Seq<MessageView>;

    closed spec fn view(&self) -> Seq<MessageView> {
        views(self.items@)
    }
}

impl OutboundQueue {
    #[verifier::type_invariant]
    spec fn bounded(self) -> bool {
        self.items@.len() <= self.capacity
    }

    /// The number of messages the queue holds at most.
    pub closed spec fn limit(self) -> nat {
        self.capacity as nat
    }

    /// An empty queue for at most `capacity` messages.
    pub fn new(capacity: usize) -> (queue: Self)
        ensures
            queue@ == Seq::<MessageView>::empty(),
            queue.limit() == capacity,
    {
        OutboundQueue { items: VecDeque::new(), capacity }
    }

    /// The number of messages the queue holds at most.
    pub fn capacity(&self) -> (capacity: usize)
        ensures
            capacity == self.limit(),
            self@.len() <= capacity,
    {
        proof {
            use_type_invariant(self);
        }
        self.capacity
    }

    /// The number of messages that wait.
    pub fn len(&self) -> (len: usize)
        ensures
            len == self@.len(),
            len <= self.limit(),
    {
        proof {
            use_type_invariant(self);
        }
        self.items.len()
    }

    /// Whether nothing waits.
    pub fn is_empty(&self) -> (empty: bool)
        ensures
            empty == (self@.len() == 0),
    {
        self.items.len() == 0
    }

    /// Whether the queue holds as many messages as it may.
    pub fn is_full(&self) -> (full: bool)
        ensures
            full == (self@.len() == self.limit()),
    {
        proof {
            use_type_invariant(self);
        }
        self.items.len() >= self.capacity
    }

    /// Appends `message` unless the queue is full; a full queue hands the
    /// message back and stays as it was.
    pub fn push(&mut self, message: ChatMessage) -> (refused: Option<ChatMessage>)
        ensures
            final(self).limit() == old(self).limit(),
            old(self)@.len() < old(self).limit() ==> refused is None && final(self)@ == old(
                self,
            )@.push(message@),
            old(self)@.len() >= old(self).limit() ==> refused == Some(message) && final(self)@
                == old(self)@,
    {
        proof {
            use_type_invariant(&*self);
        }
        if self.items.len() >= self.capacity {
            Some(message)
        } else {
            let mut items = VecDeque::new();
            std::mem::swap(&mut items, &mut self.items);
            items.push_back(message);
            self.items = items;
            None
        }
    }

    /// Takes the oldest message out, if there is one.
    pub fn pop(&mut self) -> (taken: Option<ChatMessage>)
        ensures
            final(self).limit() == old(self).limit(),
            old(self)@.len() == 0 ==> taken is None && final(self)@ == old(self)@,
            old(self)@.len() > 0 ==> taken is Some && taken->0@ == old(self)@[0] && final(self)@
                == old(self)@.drop_first(),
    {
        proof {
            use_type_invariant(&*self);
        }
        let mut items = VecDeque::new();
        std::mem::swap(&mut items, &mut self.items);
        let taken = items.pop_front();
        self.items = items;
        taken
    }
}

} // verus!
