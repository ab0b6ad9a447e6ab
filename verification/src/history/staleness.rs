//! A handle never outlives its generation.

use crate::connection::SendError;
use crate::history::{has_disconnected, lemma_run_keeps_wf, run};
use crate::message::MessageView;
use crate::model::{enqueue, BridgeState, SignalView};
use vstd::prelude::*;

verus! {

/// A generation that is not live, and whose number has been given out or
/// passed over, never becomes live: generation numbers only grow.
pub proof fn lemma_past_generation_stays_stale(
    start: BridgeState,
    generation: u64,
    signals: Seq<SignalView>,
)
    requires
        start.wf(),
        generation <= start.generation,
        !start.accepts(generation),
    ensures
        !run(start, signals).state.accepts(generation),
    decreases signals.len(),
{
    if signals.len() > 0 {
        lemma_past_generation_stays_stale(start, generation, signals.drop_last());
        lemma_run_keeps_wf(start, signals.drop_last());
    }
}

proof fn lemma_ended_generation_is_stale(
    start: BridgeState,
    generation: u64,
    signals: Seq<SignalView>,
)
    requires
        start.wf(),
        generation <= start.generation,
    ensures
        has_disconnected(run(start, signals).events) ==> !run(start, signals).state.accepts(
            generation,
        ),
    decreases signals.len(),
{
    if signals.len() > 0 {
        let before = run(start, signals.drop_last());
        let after = run(start, signals);
        lemma_ended_generation_is_stale(start, generation, signals.drop_last());
        lemma_run_keeps_wf(start, signals.drop_last());
        if has_disconnected(after.events) && !has_disconnected(before.events) {
            // The last signal has ended the generation.
            let at = choose|at: int|
                0 <= at < after.events.len() && after.events[at] is Disconnected;
            assert(at == before.events.len());
        }
    }
}

/// A handle that was live is refused as stale once the consumer has observed
/// a `Disconnected`, whatever has happened since, a new generation included:
/// the send changes nothing, so nothing of it is ever published.
pub proof fn lemma_stale_handle_is_refused(
    start: BridgeState,
    generation: u64,
    signals: Seq<SignalView>,
    message: MessageView,
)
    requires
        start.wf(),
        start.accepts(generation),
        has_disconnected(run(start, signals).events),
    ensures
        enqueue(run(start, signals).state, generation, message) == (
            run(start, signals).state,
            Err::<(), SendError>(SendError::StaleConnection),
        ),
{
    lemma_ended_generation_is_stale(start, generation, signals);
}

} // verus!
