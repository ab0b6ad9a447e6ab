//! What a bridge does over time: the events and commands of a whole run.
//!
//! The modules below state what holds of every run.

pub mod order;
pub mod retry;
pub mod staleness;
pub mod traffic;

use crate::event::EventView;
use crate::model::{next, BridgeState, CommandView, SignalView};
use vstd::prelude::*;

verus! {

/// A bridge after a run: its state, the events the consumer has observed, in
/// order, and the commands the driver was given, one for each signal.
pub struct History {
    pub state: BridgeState,
    pub events: Seq<EventView>,
    pub commands: Seq<CommandView>,
}

/// The history of the bridge that starts in `start` and is given `signals`,
/// one after the other.
pub open spec fn run(start: BridgeState, signals: Seq<SignalView>) -> History
    decreases signals.len(),
{
    if signals.len() == 0 {
        History { state: start, events: Seq::empty(), commands: Seq::empty() }
    } else {
        let before = run(start, signals.drop_last());
        let outcome = next(before.state, signals.last());
        History {
            state: outcome.state,
            events: match outcome.event {
                Some(event) => before.events.push(event),
                None => before.events,
            },
            commands: before.commands.push(outcome.command),
        }
    }
}

/// Whether a `Disconnected` stands among `events`.
pub open spec fn has_disconnected(events: Seq<EventView>) -> bool {
    exists|at: int| 0 <= at < events.len() && events[at] is Disconnected
}

/// A run keeps the bridge in a state it can be in, keeps its settings, answers
/// every signal with one command, and never takes a generation number back.
pub proof fn lemma_run_keeps_wf(start: BridgeState, signals: Seq<SignalView>)
    requires
        start.wf(),
    ensures
        run(start, signals).state.wf(),
        run(start, signals).state.config == start.config,
        run(start, signals).state.generation >= start.generation,
        run(start, signals).commands.len() == signals.len(),
    decreases signals.len(),
{
    if signals.len() > 0 {
        lemma_run_keeps_wf(start, signals.drop_last());
    }
}

} // verus!
