//! The bridge as a state machine over plain values.
//!
//! [`next`] says how the supervisor answers one signal of its driver, and
//! [`enqueue`] how it answers one send of the consumer. The executable
//! supervisor is proved to do exactly this.

use crate::config::ConfigView;
use crate::connection::SendError;
use crate::event::EventView;
use crate::message::MessageView;
use vstd::prelude::*;

verus! {

/// Where the supervisor stands in its connect and retry cycle.
#[derive(Debug, Clone, Copy, PartialEq, Eq, Structural)]
pub enum Phase {
    /// No connection; the retry pause runs, or the bridge has stopped.
    Disconnected,
    /// An attempt to connect is under way.
    Connecting,
    /// A generation is live.
    Connected,
}

/// One of the two things a live generation waits on.
#[derive(Debug, Clone, Copy, PartialEq, Eq, Structural)]
pub enum Source {
    /// The broker's inbound stream.
    Inbound,
    /// The outbound queue.
    Outbound,
}

impl Source {
    /// The source that this one is not.
    pub open spec fn other(self) -> Source {
        match self {
            Source::Inbound => Source::Outbound,
            Source::Outbound => Source::Inbound,
        }
    }
}

/// What the driver reports to the supervisor.
pub enum SignalView {
    /// The transport has connected.
    ConnectSuccess,
    /// The transport could not connect.
    ConnectFailure,
    /// The retry pause is over.
    RetryElapsed,
    /// The broker has delivered a payload.
    Inbound(Seq<u8>),
    /// The inbound subscription has ended.
    StreamTerminated,
    /// The outbound queue is due to be served.
    OutboundReady,
    /// The last publish went through.
    PublishSuccess,
    /// The last publish failed.
    PublishFailure,
    /// The bridge is to stop.
    Shutdown,
}

/// What the supervisor asks of the driver next.
pub enum CommandView {
    /// Connect to the broker at `address` and subscribe to `subject`.
    Connect { address: Seq<char>, subject: Seq<char> },
    /// Sleep for so many milliseconds, then report `RetryElapsed`.
    Wait(u64),
    /// Wait for inbound traffic or for the outbound queue, whichever is ready.
    Serve,
    /// Publish `payload` on `subject`.
    Publish { subject: Seq<char>, payload: Seq<u8> },
    /// Tear the transport down and end the task.
    Stop,
}

/// The whole state of one bridge.
pub struct BridgeState {
    pub config: ConfigView,
    pub phase: Phase,
    /// The number of generations begun so far; the live one, if any, has this
    /// number.
    pub generation: u64,
    /// The outbound messages that wait, oldest first.
    pub queue: Seq<MessageView>,
    /// Whether the bridge has stopped for good.
    pub halted: bool,
    /// The source that goes first when both are ready: the one that was not
    /// served last.
    pub turn: Source,
}

/// The answer to one signal.
pub struct Outcome {
    pub state: BridgeState,
    pub event: Option<EventView>,
    pub command: CommandView,
}

impl BridgeState {
    /// The state in which a bridge starts: its first attempt under way.
    pub open spec fn initial(config: ConfigView) -> BridgeState {
        BridgeState {
            config,
            phase: Phase::Connecting,
            generation: 0,
            queue: Seq::empty(),
            halted: false,
            turn: Source::Inbound,
        }
    }

    /// What holds of every state a bridge can be in.
    pub open spec fn wf(self) -> bool {
        &&& self.queue.len() <= self.config.queue_capacity
        &&& self.phase != Phase::Connected ==> self.queue.len() == 0
        &&& self.phase == Phase::Connected ==> self.generation >= 1
        &&& self.halted ==> self.phase == Phase::Disconnected
    }

    /// Whether a handle of generation `generation` may send now.
    pub open spec fn accepts(self, generation: u64) -> bool {
        self.phase == Phase::Connected && self.generation == generation
    }

    /// Which source to serve next, given whether inbound traffic is ready; the
    /// outbound queue is ready when it holds a message. A source that alone is
    /// ready is served; of two that are ready, the one whose turn it is; and
    /// the turn passes to the other. Outside a live generation there is
    /// nothing to serve.
    pub open spec fn next_source(self, inbound_ready: bool) -> (BridgeState, Option<Source>) {
        let outbound_ready = self.queue.len() > 0;
        if self.phase != Phase::Connected || !(inbound_ready || outbound_ready) {
            (self, None)
        } else {
            let served = if inbound_ready && outbound_ready {
                self.turn
            } else if inbound_ready {
                Source::Inbound
            } else {
                Source::Outbound
            };
            (BridgeState { turn: served.other(), ..self }, Some(served))
        }
    }

    /// The attempt to connect: to the configured address, with a
    /// subscription to the one inbound subject.
    pub open spec fn connect_command(self) -> CommandView {
        CommandView::Connect {
            address: self.config.address,
            subject: self.config.inbound_subject,
        }
    }

    /// What the driver is told when `message` is taken from the queue: to
    /// publish a user's text on the one outbound subject, to go on serving
    /// after anything else.
    pub open spec fn outbound_command(self, message: MessageView) -> CommandView {
        match message.payload() {
            Some(payload) => CommandView::Publish {
                subject: self.config.outbound_subject,
                payload,
            },
            None => CommandView::Serve,
        }
    }

    /// The command that belongs to the phase; the answer to a signal that
    /// does not fit it.
    pub open spec fn standing_command(self) -> CommandView {
        if self.halted {
            CommandView::Stop
        } else {
            match self.phase {
                Phase::Disconnected => CommandView::Wait(self.config.retry_delay_ms),
                Phase::Connecting => self.connect_command(),
                Phase::Connected => CommandView::Serve,
            }
        }
    }

    /// Nothing changes and nothing is emitted.
    pub open spec fn ignore(self) -> Outcome {
        Outcome { state: self, event: None, command: self.standing_command() }
    }

    /// The connection is gone: what waited is dropped, the consumer is told,
    /// and the retry pause begins.
    pub open spec fn lose_connection(self) -> Outcome {
        Outcome {
            state: BridgeState { phase: Phase::Disconnected, queue: Seq::empty(), ..self },
            event: Some(EventView::Disconnected),
            command: CommandView::Wait(self.config.retry_delay_ms),
        }
    }

    /// The bridge stops. A live generation is ended first, and the consumer
    /// told of it.
    pub open spec fn halt(self) -> Outcome {
        Outcome {
            state: BridgeState {
                phase: Phase::Disconnected,
                queue: Seq::empty(),
                halted: true,
                ..self
            },
            event: if self.phase == Phase::Connected {
                Some(EventView::Disconnected)
            } else {
                None
            },
            command: CommandView::Stop,
        }
    }

    /// The answer to a signal while an attempt to connect is under way. A
    /// success begins the next generation; when the generation numbers have
    /// run out, the bridge stops rather than give one out twice.
    pub open spec fn when_connecting(self, signal: SignalView) -> Outcome {
        match signal {
            SignalView::ConnectSuccess => if self.generation < u64::MAX {
                let generation = (self.generation + 1) as u64;
                Outcome {
                    state: BridgeState { phase: Phase::Connected, generation, ..self },
                    event: Some(EventView::Connected(generation)),
                    command: CommandView::Serve,
                }
            } else {
                self.halt()
            },
            SignalView::ConnectFailure => self.lose_connection(),
            SignalView::Shutdown => self.halt(),
            _ => self.ignore(),
        }
    }

    /// The answer to a signal during the retry pause.
    pub open spec fn when_disconnected(self, signal: SignalView) -> Outcome {
        match signal {
            SignalView::RetryElapsed => Outcome {
                state: BridgeState { phase: Phase::Connecting, ..self },
                event: None,
                command: self.connect_command(),
            },
            SignalView::Shutdown => self.halt(),
            _ => self.ignore(),
        }
    }

    /// The answer to `OutboundReady`: the oldest waiting message leaves the
    /// queue and, if it is a user's, is to be published.
    pub open spec fn serve_outbound(self) -> Outcome {
        if self.queue.len() == 0 {
            self.ignore()
        } else {
            Outcome {
                state: BridgeState { queue: self.queue.drop_first(), ..self },
                event: None,
                command: self.outbound_command(self.queue[0]),
            }
        }
    }

    /// The answer to a signal while a generation is live.
    pub open spec fn when_connected(self, signal: SignalView) -> Outcome {
        match signal {
            SignalView::Inbound(bytes) => Outcome {
                state: self,
                event: match MessageView::from_payload(bytes) {
                    Some(message) => Some(EventView::MessageReceived(message)),
                    None => None,
                },
                command: CommandView::Serve,
            },
            SignalView::OutboundReady => self.serve_outbound(),
            SignalView::StreamTerminated => self.lose_connection(),
            SignalView::PublishFailure => self.lose_connection(),
            SignalView::Shutdown => self.halt(),
            _ => self.ignore(),
        }
    }
}

/// The supervisor's answer to one signal.
pub open spec fn next(state: BridgeState, signal: SignalView) -> Outcome {
    if state.halted {
        state.ignore()
    } else {
        match state.phase {
            Phase::Disconnected => state.when_disconnected(signal),
            Phase::Connecting => state.when_connecting(signal),
            Phase::Connected => state.when_connected(signal),
        }
    }
}

/// The supervisor's answer to one send through a handle of generation
/// `generation`: the new state, and what the sender is told.
pub open spec fn enqueue(state: BridgeState, generation: u64, message: MessageView) -> (
    BridgeState,
    Result<(), SendError>,
) {
    if !state.accepts(generation) {
        (state, Err(SendError::StaleConnection))
    } else if state.queue.len() >= state.config.queue_capacity {
        (state, Err(SendError::QueueFull))
    } else {
        (BridgeState { queue: state.queue.push(message), ..state }, Ok(()))
    }
}

/// Every answer of the supervisor leaves the bridge in a state it can be in,
/// with the settings and the turn it had.
pub proof fn lemma_next_preserves_wf(state: BridgeState, signal: SignalView)
    requires
        state.wf(),
    ensures
        next(state, signal).state.wf(),
        next(state, signal).state.config == state.config,
        next(state, signal).state.turn == state.turn,
{
}

/// Every send leaves the bridge in a state it can be in, with the settings
/// and the turn it had.
pub proof fn lemma_enqueue_preserves_wf(state: BridgeState, generation: u64, message: MessageView)
    requires
        state.wf(),
    ensures
        enqueue(state, generation, message).0.wf(),
        enqueue(state, generation, message).0.config == state.config,
        enqueue(state, generation, message).0.turn == state.turn,
{
}

/// A generation begins with nothing queued: what waited when the last one
/// ended was dropped then, and is never published on a later connection.
pub proof fn lemma_generation_begins_empty(state: BridgeState, signal: SignalView)
    requires
        state.wf(),
        next(state, signal).event is Some,
        next(state, signal).event->0 is Connected,
    ensures
        next(state, signal).state.queue.len() == 0,
        next(state, signal).state.accepts(next(state, signal).event->0->Connected_0),
        next(state, signal).state.generation == state.generation + 1,
{
}

/// Neither source starves the other: when both are ready twice in a row, and
/// only signals and sends come in between, they are served one after the
/// other.
pub proof fn lemma_sources_take_turns(first: BridgeState, second: BridgeState)
    requires
        first.phase == Phase::Connected,
        first.queue.len() > 0,
        second.phase == Phase::Connected,
        second.queue.len() > 0,
        second.turn == first.next_source(true).0.turn,
    ensures
        first.next_source(true).1 is Some,
        second.next_source(true).1 == Some(first.next_source(true).1->0.other()),
{
}

} // verus!
