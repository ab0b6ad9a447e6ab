//! The bridge never gives up on the broker.

use crate::event::EventView;
use crate::history::run;
use crate::model::{next, BridgeState, CommandView, Phase, SignalView};
use vstd::prelude::*;

verus! {

/// The signals of `rounds` failed attempts to connect, each followed by the
/// end of its retry pause.
pub open spec fn failed_attempts(rounds: nat) -> Seq<SignalView> {
    Seq::new(
        2 * rounds,
        |at: int|
            if at % 2 == 0 {
                SignalView::ConnectFailure
            } else {
                SignalView::RetryElapsed
            },
    )
}

/// Against a broker that never answers, the bridge goes round for ever: each
/// failed attempt gives the consumer one `Disconnected` and the driver one
/// pause of the configured length, each pause ends in a new attempt, and
/// after any number of rounds the bridge stands where it stood, never told
/// to stop.
pub proof fn lemma_retries_for_ever(start: BridgeState, rounds: nat)
    requires
        start.wf(),
        start.phase == Phase::Connecting,
        !start.halted,
    ensures
        run(start, failed_attempts(rounds)).state == start,
        run(start, failed_attempts(rounds)).events == Seq::new(
            rounds,
            |at: int| EventView::Disconnected,
        ),
        run(start, failed_attempts(rounds)).commands == Seq::new(
            2 * rounds,
            |at: int|
                if at % 2 == 0 {
                    CommandView::Wait(start.config.retry_delay_ms)
                } else {
                    start.connect_command()
                },
        ),
    decreases rounds,
{
    if rounds > 0 {
        let signals = failed_attempts(rounds);
        let earlier = (rounds - 1) as nat;
        lemma_retries_for_ever(start, earlier);
        assert(signals.drop_last().drop_last() =~= failed_attempts(earlier));
        // The attempt fails, and the bridge pauses with nothing queued...
        let failed = run(start, signals.drop_last());
        assert(failed.state == (BridgeState { phase: Phase::Disconnected, ..start })) by {
            assert(start.queue =~= Seq::empty());
        }
        // ...and the end of the pause puts it back where it was.
    }
}

/// The bridge stops only when it is told to, or when the generation numbers
/// have run out: no failure of the broker ends it.
pub proof fn lemma_stops_only_on_request(state: BridgeState, signal: SignalView)
    requires
        state.wf(),
        !state.halted,
        !(signal is Shutdown),
        state.generation < u64::MAX,
    ensures
        !next(state, signal).state.halted,
        !(next(state, signal).command is Stop),
{
}

} // verus!
