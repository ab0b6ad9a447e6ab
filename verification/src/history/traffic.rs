//! What goes through the bridge: the outbound queue is bounded and first in,
//! first out, and inbound messages keep the broker's order.

use crate::connection::SendError;
use crate::event::EventView;
use crate::history::run;
use crate::message::MessageView;
use crate::model::{enqueue, next, BridgeState, CommandView, Phase, SignalView};
use vstd::prelude::*;
use vstd::utf8::valid_utf8;

verus! {

/// The state after the sends of `messages`, one after the other, through a
/// handle of generation `generation`, and what each send was told.
pub open spec fn send_all(state: BridgeState, generation: u64, messages: Seq<MessageView>) -> (
    BridgeState,
    Seq<Result<(), SendError>>,
)
    decreases messages.len(),
{
    if messages.len() == 0 {
        (state, Seq::empty())
    } else {
        let before = send_all(state, generation, messages.drop_last());
        let sent = enqueue(before.0, generation, messages.last());
        (sent.0, before.1.push(sent.1))
    }
}

/// Sends through the live handle are taken, in order, as long as the queue
/// has room.
pub proof fn lemma_sends_fill_the_queue(
    state: BridgeState,
    generation: u64,
    messages: Seq<MessageView>,
)
    requires
        state.wf(),
        state.accepts(generation),
        state.queue.len() + messages.len() <= state.config.queue_capacity,
    ensures
        send_all(state, generation, messages).0 == (BridgeState {
            queue: state.queue + messages,
            ..state
        }),
        send_all(state, generation, messages).1.len() == messages.len(),
        forall|at: int|
            0 <= at < messages.len() ==> #[trigger] send_all(state, generation, messages).1[at]
                is Ok,
    decreases messages.len(),
{
    if messages.len() > 0 {
        lemma_sends_fill_the_queue(state, generation, messages.drop_last());
        assert((state.queue + messages.drop_last()).push(messages.last()) =~= state.queue
            + messages);
    }
}

/// Backpressure: once as many sends as the queue has room for have been
/// taken, with nothing drained in between, the next send is refused with
/// `QueueFull` and changes nothing.
pub proof fn lemma_full_queue_refuses(
    state: BridgeState,
    generation: u64,
    messages: Seq<MessageView>,
    extra: MessageView,
)
    requires
        state.wf(),
        state.accepts(generation),
        state.queue.len() + messages.len() == state.config.queue_capacity,
    ensures
        forall|at: int|
            0 <= at < messages.len() ==> #[trigger] send_all(state, generation, messages).1[at]
                is Ok,
        enqueue(send_all(state, generation, messages).0, generation, extra) == (
            send_all(state, generation, messages).0,
            Err::<(), SendError>(SendError::QueueFull),
        ),
{
    lemma_sends_fill_the_queue(state, generation, messages);
}

/// The queue is first in, first out: serving it `count` times takes the
/// `count` oldest messages, oldest first, and gives the consumer nothing.
pub proof fn lemma_outbound_in_order(state: BridgeState, count: nat)
    requires
        state.wf(),
        state.phase == Phase::Connected,
        !state.halted,
        count <= state.queue.len(),
    ensures
        run(state, Seq::new(count, |at: int| SignalView::OutboundReady)).state == (BridgeState {
            queue: state.queue.subrange(count as int, state.queue.len() as int),
            ..state
        }),
        run(state, Seq::new(count, |at: int| SignalView::OutboundReady)).events
            == Seq::<EventView>::empty(),
        run(state, Seq::new(count, |at: int| SignalView::OutboundReady)).commands == Seq::new(
            count,
            |at: int| state.outbound_command(state.queue[at]),
        ),
    decreases count,
{
    let signals = Seq::new(count, |at: int| SignalView::OutboundReady);
    if count == 0 {
        assert(state.queue.subrange(0, state.queue.len() as int) =~= state.queue);
    } else {
        let earlier = (count - 1) as nat;
        lemma_outbound_in_order(state, earlier);
        assert(signals.drop_last() =~= Seq::new(earlier, |at: int| SignalView::OutboundReady));
        let before = run(state, signals.drop_last());
        assert(before.state.queue.drop_first() =~= state.queue.subrange(
            count as int,
            state.queue.len() as int,
        ));
    }
}

/// What was sent through the live handle, with nothing waiting before it, is
/// handed to the driver in the order in which it was sent.
pub proof fn lemma_sent_is_published_in_order(
    state: BridgeState,
    generation: u64,
    messages: Seq<MessageView>,
)
    requires
        state.wf(),
        state.accepts(generation),
        !state.halted,
        state.queue.len() == 0,
        messages.len() <= state.config.queue_capacity,
    ensures
        run(
            send_all(state, generation, messages).0,
            Seq::new(messages.len(), |at: int| SignalView::OutboundReady),
        ).commands == Seq::new(messages.len(), |at: int| state.outbound_command(messages[at])),
        run(
            send_all(state, generation, messages).0,
            Seq::new(messages.len(), |at: int| SignalView::OutboundReady),
        ).state == state,
{
    lemma_sends_fill_the_queue(state, generation, messages);
    let filled = send_all(state, generation, messages).0;
    lemma_outbound_in_order(filled, messages.len());
    assert(filled.queue.subrange(messages.len() as int, filled.queue.len() as int)
        =~= state.queue);
}

/// The events that a live generation gives for `payloads`, delivered in this
/// order: one `MessageReceived` for each that is well-formed, in the same
/// order.
pub open spec fn received(payloads: Seq<Seq<u8>>) -> Seq<EventView>
    decreases payloads.len(),
{
    if payloads.len() == 0 {
        Seq::empty()
    } else {
        match MessageView::from_payload(payloads.last()) {
            Some(message) => received(payloads.drop_last()).push(
                EventView::MessageReceived(message),
            ),
            None => received(payloads.drop_last()),
        }
    }
}

/// Inbound messages reach the consumer in the broker's order of delivery,
/// and change nothing in the bridge.
pub proof fn lemma_inbound_in_order(state: BridgeState, payloads: Seq<Seq<u8>>)
    requires
        state.phase == Phase::Connected,
        !state.halted,
    ensures
        run(state, payloads.map_values(|bytes: Seq<u8>| SignalView::Inbound(bytes))).state
            == state,
        run(state, payloads.map_values(|bytes: Seq<u8>| SignalView::Inbound(bytes))).events
            == received(payloads),
    decreases payloads.len(),
{
    let signals = payloads.map_values(|bytes: Seq<u8>| SignalView::Inbound(bytes));
    if payloads.len() > 0 {
        lemma_inbound_in_order(state, payloads.drop_last());
        assert(signals.drop_last() =~= payloads.drop_last().map_values(
            |bytes: Seq<u8>| SignalView::Inbound(bytes),
        ));
    }
}

/// An inbound payload that is not well-formed UTF-8 gives the consumer
/// nothing and leaves the bridge exactly as it was.
pub proof fn lemma_malformed_payload_is_dropped(state: BridgeState, bytes: Seq<u8>)
    requires
        !valid_utf8(bytes),
    ensures
        next(state, SignalView::Inbound(bytes)).state == state,
        next(state, SignalView::Inbound(bytes)).event is None,
{
}

} // verus!
