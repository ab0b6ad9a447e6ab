//! The consumer's handle on one connection generation.

use crate::message::ChatMessage;
use crate::model::enqueue;
use crate::supervisor::Supervisor;
use vstd::prelude::*;

verus! {

/// Why a send was refused. Either way the message was not queued and the
/// bridge is as it was; the sender may try again or give up.
#[derive(Debug, Clone, Copy, PartialEq, Eq, Structural)]
pub enum SendError {
    /// The handle belongs to a generation that is not the live one.
    StaleConnection,
    /// The outbound queue is full.
    QueueFull,
}

/// The capability to send during one connection generation.
///
/// A handle is issued with each `Connected` event and holds nothing but the
/// number of its generation: no part of the transport, and nothing that
/// outlives the generation.
#[derive(Debug, Clone, Copy, PartialEq, Eq)]
pub struct Connection {
    generation: u64,
}

impl View for Connection {
    type V = u64;

    /// The number of the generation the handle was issued for.
    closed spec fn view(&self) -> u64 {
        self.generation
    }
}

impl Connection {
    /// The handle of generation `generation`.
    pub(crate) fn issue(generation: u64) -> (handle: Self)
        ensures
            handle@ == generation,
    {
        Connection { generation }
    }

    /// The number of the generation the handle was issued for.
    pub fn generation(&self) -> (generation: u64)
        ensures
            generation == self@,
    {
        self.generation
    }

    /// Queues `message` for publishing, if the handle's generation is the
    /// live one and the queue has room. Never waits.
    pub fn send(&mut self, supervisor: &mut Supervisor, message: ChatMessage) -> (sent: Result<
        (),
        SendError,
    >)
        ensures
            *final(self) == *old(self),
            (final(supervisor)@, sent) == enqueue(old(supervisor)@, old(self)@, message@),
            final(supervisor)@.wf(),
    {
        supervisor.enqueue(self.generation, message)
    }
}

} // verus!
