//! The order in which the consumer observes events: `Connected` and
//! `Disconnected` take turns, and messages arrive only inside a generation.

use crate::event::EventView;
use crate::history::{has_disconnected, lemma_run_keeps_wf, run, History};
use crate::model::{next, BridgeState, Phase, SignalView};
use vstd::prelude::*;

verus! {

/// Whether a `Disconnected` stands strictly between the places `from` and `to`.
pub open spec fn disconnected_between(events: Seq<EventView>, from: int, to: int) -> bool {
    exists|at: int| from < at < to && 0 <= at < events.len() && events[at] is Disconnected
}

/// Whether a `Connected` stands strictly between the places `from` and `to`.
pub open spec fn connected_between(events: Seq<EventView>, from: int, to: int) -> bool {
    exists|at: int| from < at < to && 0 <= at < events.len() && events[at] is Connected
}

/// Whether the place `at` lies inside a generation: a `Connected` stands
/// before it with no `Disconnected` in between.
pub open spec fn inside_generation(events: Seq<EventView>, at: int) -> bool {
    exists|begun: int|
        0 <= begun < at && begun < events.len() && events[begun] is Connected
            && !disconnected_between(events, begun, at)
}

/// No two `Connected` events without a `Disconnected` between them.
pub open spec fn connected_never_repeats(events: Seq<EventView>) -> bool {
    forall|first: int, second: int|
        0 <= first < second < events.len() && events[first] is Connected
            && events[second] is Connected
            ==> #[trigger] disconnected_between(events, first, second)
}

/// No two `Disconnected` events without a `Connected` between them.
pub open spec fn disconnected_never_repeats(events: Seq<EventView>) -> bool {
    forall|first: int, second: int|
        0 <= first < second < events.len() && events[first] is Disconnected
            && events[second] is Disconnected
            ==> #[trigger] connected_between(events, first, second)
}

/// Every `MessageReceived` lies inside a generation.
pub open spec fn messages_inside_generations(events: Seq<EventView>) -> bool {
    forall|at: int|
        0 <= at < events.len() && events[at] is MessageReceived
            ==> #[trigger] inside_generation(events, at)
}

/// Whether the signal at the place `at` is a failed attempt to connect that
/// finds the bridge connecting.
pub open spec fn attempt_fails_at(start: BridgeState, signals: Seq<SignalView>, at: int) -> bool {
    let before = run(start, signals.take(at)).state;
    signals[at] is ConnectFailure && before.phase == Phase::Connecting && !before.halted
}

/// Whether no attempt to connect fails once the consumer has observed a
/// `Disconnected`.
pub open spec fn no_attempt_fails_again(start: BridgeState, signals: Seq<SignalView>) -> bool {
    forall|at: int|
        0 <= at < signals.len() && #[trigger] attempt_fails_at(start, signals, at)
            ==> !has_disconnected(run(start, signals.take(at)).events)
}

/// In what the consumer observes, no two `Connected` events come without a
/// `Disconnected` between them, whatever the driver reports.
pub proof fn lemma_connected_never_repeats(start: BridgeState, signals: Seq<SignalView>)
    requires
        start.wf(),
    ensures
        connected_never_repeats(run(start, signals).events),
{
    lemma_generations_are_closed(start, signals);
}

/// Nor do two `Disconnected` events come without a `Connected` between them,
/// unless an attempt to connect fails after the consumer has observed a
/// `Disconnected`: every failed attempt is reported, so that a broker that
/// stays away gives one `Disconnected` after the other.
pub proof fn lemma_disconnected_never_repeats(start: BridgeState, signals: Seq<SignalView>)
    requires
        start.wf(),
        no_attempt_fails_again(start, signals),
    ensures
        disconnected_never_repeats(run(start, signals).events),
{
    lemma_attempts_are_answered(start, signals);
}

/// An attempt to connect that fails after the consumer has observed a
/// `Disconnected` does give two of them with no `Connected` in between.
pub proof fn lemma_failed_attempt_repeats_disconnected(
    start: BridgeState,
    signals: Seq<SignalView>,
    at: int,
)
    requires
        start.wf(),
        0 <= at < signals.len(),
        attempt_fails_at(start, signals, at),
        has_disconnected(run(start, signals.take(at)).events),
    ensures
        !disconnected_never_repeats(run(start, signals.take(at + 1)).events),
{
    let earlier = signals.take(at);
    assert(signals.take(at + 1).drop_last() =~= earlier);
    let before = run(start, earlier).events;
    let after = run(start, signals.take(at + 1)).events;
    assert(after == before.push(EventView::Disconnected));
    let last = last_disconnected(before);
    lemma_last_disconnected(before);
    if connected_between(after, last, before.len() as int) {
        // A `Connected` after the last `Disconnected` would have to be
        // followed by another, the bridge being without a live generation.
        let begun = choose|begun: int|
            last < begun < before.len() && 0 <= begun < after.len() && after[begun] is Connected;
        assert(before[begun] is Connected);
        lemma_generations_are_closed(start, earlier);
        assert(disconnected_between(before, begun, before.len() as int));
    }
    assert(after[last] is Disconnected && after[before.len() as int] is Disconnected);
}

/// Every `MessageReceived` that the consumer observes comes after the
/// `Connected` of a generation and before the `Disconnected` that ends it.
pub proof fn lemma_messages_inside_generations(start: BridgeState, signals: Seq<SignalView>)
    requires
        start.wf(),
        start.phase != Phase::Connected,
    ensures
        messages_inside_generations(run(start, signals).events),
{
    lemma_generation_is_open(start, signals);
}

/// While no generation is live, every `Connected` observed so far has been
/// followed by a `Disconnected`.
spec fn generations_closed(history: History) -> bool {
    history.state.phase != Phase::Connected ==> forall|at: int|
        0 <= at < history.events.len() && history.events[at] is Connected
            ==> #[trigger] disconnected_between(history.events, at, history.events.len() as int)
}

/// While a generation is live, every `Disconnected` observed so far has been
/// followed by a `Connected`.
spec fn attempts_answered(history: History) -> bool {
    history.state.phase == Phase::Connected ==> forall|at: int|
        0 <= at < history.events.len() && history.events[at] is Disconnected
            ==> #[trigger] connected_between(history.events, at, history.events.len() as int)
}

/// While a generation is live, its `Connected` has been observed, carries
/// the number of the generation, and no `Disconnected` has come after it.
spec fn generation_open(history: History) -> bool {
    history.state.phase == Phase::Connected ==> exists|begun: int|
        0 <= begun < history.events.len() && #[trigger] history.events[begun]
            == EventView::Connected(history.state.generation) && !disconnected_between(
            history.events,
            begun,
            history.events.len() as int,
        )
}

/// The place of the last `Disconnected` among `events`.
spec fn last_disconnected(events: Seq<EventView>) -> int
    decreases events.len(),
{
    if events.len() == 0 {
        -1
    } else if events.last() is Disconnected {
        events.len() - 1
    } else {
        last_disconnected(events.drop_last())
    }
}

proof fn lemma_last_disconnected(events: Seq<EventView>)
    requires
        has_disconnected(events),
    ensures
        0 <= last_disconnected(events) < events.len(),
        events[last_disconnected(events)] is Disconnected,
        !disconnected_between(events, last_disconnected(events), events.len() as int),
    decreases events.len(),
{
    if !(events.last() is Disconnected) {
        let found = choose|found: int| 0 <= found < events.len() && events[found] is Disconnected;
        assert(events.drop_last()[found] is Disconnected);
        lemma_last_disconnected(events.drop_last());
        if disconnected_between(events, last_disconnected(events), events.len() as int) {
            let later = choose|later: int|
                last_disconnected(events) < later < events.len() && 0 <= later < events.len()
                    && events[later] is Disconnected;
            assert(events.drop_last()[later] is Disconnected);
        }
    }
}

/// A `Disconnected` that stands between two places still does when an event
/// is appended and the second place moves on.
proof fn lemma_disconnected_stays_between(
    events: Seq<EventView>,
    event: EventView,
    from: int,
    to: int,
    later: int,
)
    requires
        disconnected_between(events, from, to),
        to <= later,
    ensures
        disconnected_between(events.push(event), from, later),
{
    let at = choose|at: int| from < at < to && 0 <= at < events.len() && events[at] is Disconnected;
    assert(events.push(event)[at] is Disconnected);
}

/// A `Connected` that stands between two places still does when an event is
/// appended and the second place moves on.
proof fn lemma_connected_stays_between(
    events: Seq<EventView>,
    event: EventView,
    from: int,
    to: int,
    later: int,
)
    requires
        connected_between(events, from, to),
        to <= later,
    ensures
        connected_between(events.push(event), from, later),
{
    let at = choose|at: int| from < at < to && 0 <= at < events.len() && events[at] is Connected;
    assert(events.push(event)[at] is Connected);
}

/// Where no `Disconnected` stands between two places, none does after an
/// event that is none is appended.
proof fn lemma_still_not_disconnected(
    events: Seq<EventView>,
    event: EventView,
    from: int,
    to: int,
)
    requires
        !disconnected_between(events, from, to),
        to <= events.len() || !(event is Disconnected),
    ensures
        !disconnected_between(events.push(event), from, to),
{
    if disconnected_between(events.push(event), from, to) {
        let at = choose|at: int|
            from < at < to && 0 <= at < events.push(event).len() && events.push(event)[at]
                is Disconnected;
        assert(events[at] is Disconnected);
    }
}

proof fn lemma_generations_are_closed(start: BridgeState, signals: Seq<SignalView>)
    requires
        start.wf(),
    ensures
        connected_never_repeats(run(start, signals).events),
        generations_closed(run(start, signals)),
    decreases signals.len(),
{
    if signals.len() > 0 {
        let earlier = signals.drop_last();
        lemma_generations_are_closed(start, earlier);
        lemma_run_keeps_wf(start, earlier);
        let before = run(start, earlier);
        let outcome = next(before.state, signals.last());
        if outcome.event is Some {
            let event = outcome.event->0;
            let seen = before.events.len() as int;
            let after = before.events.push(event);
            assert forall|first: int, second: int|
                0 <= first < second < after.len() && after[first] is Connected
                    && after[second] is Connected
            implies #[trigger] disconnected_between(after, first, second) by {
                if second < seen {
                    lemma_disconnected_stays_between(before.events, event, first, second, second);
                } else {
                    // A generation begins only when none is live, and then
                    // every earlier one has been closed.
                    lemma_disconnected_stays_between(before.events, event, first, seen, seen);
                }
            }
            if outcome.state.phase != Phase::Connected {
                // Only a `Disconnected` leaves the bridge without a live
                // generation, and it closes all that came before.
                assert(after[seen] is Disconnected);
            }
        }
    }
}

proof fn lemma_attempts_are_answered(start: BridgeState, signals: Seq<SignalView>)
    requires
        start.wf(),
        no_attempt_fails_again(start, signals),
    ensures
        disconnected_never_repeats(run(start, signals).events),
        attempts_answered(run(start, signals)),
    decreases signals.len(),
{
    if signals.len() > 0 {
        let earlier = signals.drop_last();
        assert(no_attempt_fails_again(start, earlier)) by {
            assert forall|at: int|
                0 <= at < earlier.len() && #[trigger] attempt_fails_at(start, earlier, at)
            implies !has_disconnected(run(start, earlier.take(at)).events) by {
                assert(earlier.take(at) =~= signals.take(at));
                assert(attempt_fails_at(start, signals, at));
            }
        }
        lemma_attempts_are_answered(start, earlier);
        lemma_run_keeps_wf(start, earlier);
        let before = run(start, earlier);
        let outcome = next(before.state, signals.last());
        if outcome.event is Some {
            let event = outcome.event->0;
            let seen = before.events.len() as int;
            let after = before.events.push(event);
            assert forall|first: int, second: int|
                0 <= first < second < after.len() && after[first] is Disconnected
                    && after[second] is Disconnected
            implies #[trigger] connected_between(after, first, second) by {
                if second < seen {
                    lemma_connected_stays_between(before.events, event, first, second, second);
                } else {
                    // With a `Disconnected` observed before, this one is not
                    // a failed attempt: it ends a live generation, and then
                    // every earlier one has been answered.
                    assert(before.events[first] is Disconnected);
                    assert(signals.take(signals.len() - 1) =~= earlier);
                    assert(!attempt_fails_at(start, signals, signals.len() - 1));
                    lemma_connected_stays_between(before.events, event, first, seen, seen);
                }
            }
            if outcome.state.phase == Phase::Connected {
                assert forall|at: int| 0 <= at < after.len() && after[at] is Disconnected
                implies #[trigger] connected_between(after, at, after.len() as int) by {
                    if event is Connected {
                        assert(after[seen] is Connected);
                    } else {
                        lemma_connected_stays_between(before.events, event, at, seen, seen + 1);
                    }
                }
            }
        }
    }
}

proof fn lemma_generation_is_open(start: BridgeState, signals: Seq<SignalView>)
    requires
        start.wf(),
        start.phase != Phase::Connected,
    ensures
        messages_inside_generations(run(start, signals).events),
        generation_open(run(start, signals)),
    decreases signals.len(),
{
    if signals.len() > 0 {
        let earlier = signals.drop_last();
        lemma_generation_is_open(start, earlier);
        lemma_run_keeps_wf(start, earlier);
        let before = run(start, earlier);
        let outcome = next(before.state, signals.last());
        if outcome.event is Some {
            let event = outcome.event->0;
            let seen = before.events.len() as int;
            let after = before.events.push(event);
            assert forall|at: int| 0 <= at < after.len() && after[at] is MessageReceived
            implies #[trigger] inside_generation(after, at) by {
                let begun = if at < seen {
                    assert(inside_generation(before.events, at));
                    choose|begun: int|
                        0 <= begun < at && begun < seen && before.events[begun] is Connected
                            && !disconnected_between(before.events, begun, at)
                } else {
                    // A message arrives only while a generation is live.
                    lemma_where_generation_began(before)
                };
                assert(after[begun] is Connected);
                lemma_still_not_disconnected(before.events, event, begun, at);
            }
            if outcome.state.phase == Phase::Connected {
                if event is Connected {
                    assert(after[seen] == EventView::Connected(outcome.state.generation));
                    assert(!disconnected_between(after, seen, seen + 1));
                } else {
                    let begun = lemma_where_generation_began(before);
                    assert(after[begun] == EventView::Connected(outcome.state.generation));
                    lemma_still_not_disconnected(before.events, event, begun, seen + 1);
                }
            }
        }
    }
}

/// The place at which the live generation began.
proof fn lemma_where_generation_began(history: History) -> (begun: int)
    requires
        generation_open(history),
        history.state.phase == Phase::Connected,
    ensures
        0 <= begun < history.events.len(),
        history.events[begun] == EventView::Connected(history.state.generation),
        !disconnected_between(history.events, begun, history.events.len() as int),
{
    choose|begun: int|
        0 <= begun < history.events.len() && #[trigger] history.events[begun]
            == EventView::Connected(history.state.generation) && !disconnected_between(
            history.events,
            begun,
            history.events.len() as int,
        )
}

} // verus!
