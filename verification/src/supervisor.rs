//! The supervisor: the executable state machine of the bridge.
//!
//! A driver owns the transport and does the waiting. It starts with
//! [`connect`], performs the command it is given, reports what came of it as
//! a [`Signal`], and gets the next command back from [`Supervisor::step`]:
//!
//! | command   | the driver                                          | then reports                                     |
//! |-----------|-----------------------------------------------------|--------------------------------------------------|
//! | `Connect` | connects to the address, subscribes to the subject  | `ConnectSuccess` or `ConnectFailure`             |
//! | `Wait`    | sleeps for the given time                           | `RetryElapsed`                                   |
//! | `Serve`   | waits for a source and asks which one to serve      | `Inbound`, `StreamTerminated` or `OutboundReady` |
//! | `Publish` | hands the payload to the broker, on the subject     | `PublishSuccess` or `PublishFailure`             |
//! | `Stop`    | lets go of the transport and ends                   | nothing                                          |
//!
//! `Shutdown` may be reported in place of any of these. A signal that does
//! not fit the phase changes nothing. Whatever the driver reports, the
//! supervisor stays in a state a bridge can be in, so that none of its
//! functions asks anything of its caller.

use crate::config::Config;
use crate::connection::{Connection, SendError};
use crate::event::{Event, EventView};
use crate::history::order::{
    connected_never_repeats, lemma_connected_never_repeats, lemma_messages_inside_generations,
    messages_inside_generations,
};
use crate::history::run;
use crate::message::ChatMessage;
use crate::model::{enqueue, next, BridgeState, CommandView, Phase, SignalView, Source};
use crate::queue::OutboundQueue;
use vstd::prelude::*;

verus! {

/// What the driver reports to the supervisor.
#[derive(Debug, PartialEq, Eq)]
pub enum Signal {
    /// The transport has connected.
    ConnectSuccess,
    /// The transport could not connect.
    ConnectFailure,
    /// The retry pause is over.
    RetryElapsed,
    /// The broker has delivered a payload.
    Inbound(Vec<u8>),
    /// The inbound subscription has ended.
    StreamTerminated,
    /// The outbound queue is due to be served.
    OutboundReady,
    /// The last publish went through.
    PublishSuccess,
    /// The last publish failed.
    PublishFailure,
    /// The bridge is to stop.
    Shutdown,
}

impl View for Signal {
    type V = SignalView;

    open spec fn view(&self) -> SignalView {
        match self {
            Signal::ConnectSuccess => SignalView::ConnectSuccess,
            Signal::ConnectFailure => SignalView::ConnectFailure,
            Signal::RetryElapsed => SignalView::RetryElapsed,
            Signal::Inbound(bytes) => SignalView::Inbound(bytes@),
            Signal::StreamTerminated => SignalView::StreamTerminated,
            Signal::OutboundReady => SignalView::OutboundReady,
            Signal::PublishSuccess => SignalView::PublishSuccess,
            Signal::PublishFailure => SignalView::PublishFailure,
            Signal::Shutdown => SignalView::Shutdown,
        }
    }
}

/// What the supervisor asks of the driver next.
#[derive(Debug, PartialEq, Eq)]
pub enum Command {
    /// Connect to the broker at `address` and subscribe to `subject`.
    Connect { address: String, subject: String },
    /// Sleep for so many milliseconds, then report `RetryElapsed`.
    Wait(u64),
    /// Wait for inbound traffic or for the outbound queue, whichever is ready.
    Serve,
    /// Publish `payload` on `subject`.
    Publish { subject: String, payload: Vec<u8> },
    /// Tear the transport down and end the task.
    Stop,
}

impl View for Command {
    type V = CommandView;

    open spec fn view(&self) -> CommandView {
        match self {
            Command::Connect { address, subject } => CommandView::Connect {
                address: address@,
                subject: subject@,
            },
            Command::Wait(millis) => CommandView::Wait(*millis),
            Command::Serve => CommandView::Serve,
            Command::Publish { subject, payload } => CommandView::Publish {
                subject: subject@,
                payload: payload@,
            },
            Command::Stop => CommandView::Stop,
        }
    }
}

/// The supervisor's answer to one signal: at most one event for the
/// consumer, and the next thing for the driver to do.
#[derive(Debug, PartialEq, Eq)]
pub struct Reaction {
    pub event: Option<Event>,
    pub command: Command,
}

impl Reaction {
    /// The event of the answer, if any, as a plain value.
    pub open spec fn event_view(self) -> Option<EventView> {
        match self.event {
            Some(event) => Some(event@),
            None => None,
        }
    }
}

/// What a run has given: the events for the consumer, in order, and the
/// command that answered each signal.
#[derive(Debug, PartialEq, Eq)]
pub struct Transcript {
    pub events: Vec<Event>,
    pub commands: Vec<Command>,
}

/// The signals as plain values.
pub open spec fn signal_views(signals: Seq<Signal>) -> Seq<SignalView> {
    signals.map_values(|signal: Signal| signal@)
}

/// The events as plain values.
pub open spec fn event_views(events: Seq<Event>) -> Seq<EventView> {
    events.map_values(|event: Event| event@)
}

/// The commands as plain values.
pub open spec fn command_views(commands: Seq<Command>) -> Seq<CommandView> {
    commands.map_values(|command: Command| command@)
}

/// The one owner of a bridge's state: the phase of the connect and retry
/// cycle, the number of the generation, and the outbound queue.
pub struct Supervisor {
    config: Config,
    phase: Phase,
    generation: u64,
    queue: OutboundQueue,
    halted: bool,
    turn: Source,
}

impl View for Supervisor {
    type V = BridgeState;

    closed spec fn view(&self) -> BridgeState {
        BridgeState {
            config: self.config@,
            phase: self.phase,
            generation: self.generation,
            queue: self.queue@,
            halted: self.halted,
            turn: self.turn,
        }
    }
}

/// Starts a bridge: the supervisor is made with its first attempt under way,
/// and the driver is asked to connect.
pub fn connect(config: Config) -> (started: (Supervisor, Command))
    ensures
        started.0@ == BridgeState::initial(config@),
        started.0@.wf(),
        started.1@ == BridgeState::initial(config@).connect_command(),
{
    let queue = OutboundQueue::new(config.queue_capacity);
    let supervisor = Supervisor {
        config,
        phase: Phase::Connecting,
        generation: 0,
        queue,
        halted: false,
        turn: Source::Inbound,
    };
    let command = supervisor.connect_command();
    (supervisor, command)
}

impl Supervisor {
    #[verifier::type_invariant]
    spec fn inv(self) -> bool {
        &&& self@.wf()
        &&& self.queue.limit() == self.config.queue_capacity
    }

    /// The settings the bridge was made with.
    pub fn config(&self) -> (config: &Config)
        ensures
            config@ == self@.config,
    {
        &self.config
    }

    /// Where the supervisor stands in its connect and retry cycle.
    pub fn phase(&self) -> (phase: Phase)
        ensures
            phase == self@.phase,
            self@.wf(),
    {
        proof {
            use_type_invariant(self);
        }
        self.phase
    }

    /// The number of generations begun so far.
    pub fn generation(&self) -> (generation: u64)
        ensures
            generation == self@.generation,
    {
        self.generation
    }

    /// Whether the bridge has stopped for good.
    pub fn is_halted(&self) -> (halted: bool)
        ensures
            halted == self@.halted,
    {
        self.halted
    }

    /// The number of outbound messages that wait.
    pub fn pending(&self) -> (pending: usize)
        ensures
            pending == self@.queue.len(),
    {
        self.queue.len()
    }

    /// Whether a send through `handle` would find its generation live.
    pub fn accepts(&self, handle: &Connection) -> (live: bool)
        ensures
            live == self@.accepts(handle@),
    {
        self.is_live(handle.generation())
    }

    /// Whether `generation` is the live one.
    fn is_live(&self, generation: u64) -> (live: bool)
        ensures
            live == self@.accepts(generation),
    {
        match self.phase {
            Phase::Connected => self.generation == generation,
            _ => false,
        }
    }

    /// Queues `message` for a handle of generation `generation`: refused as
    /// stale unless that generation is live, refused as full when the queue
    /// holds as many messages as it may. A refusal changes nothing.
    pub(crate) fn enqueue(&mut self, generation: u64, message: ChatMessage) -> (sent: Result<
        (),
        SendError,
    >)
        ensures
            (final(self)@, sent) == enqueue(old(self)@, generation, message@),
            final(self)@.wf(),
    {
        proof {
            use_type_invariant(&*self);
        }
        if !self.is_live(generation) {
            return Err(SendError::StaleConnection);
        }
        let mut queue = OutboundQueue::new(self.config.queue_capacity);
        std::mem::swap(&mut queue, &mut self.queue);
        let refused = queue.push(message);
        self.queue = queue;
        match refused {
            Some(_) => Err(SendError::QueueFull),
            None => Ok(()),
        }
    }

    /// Says which source to serve next, given whether inbound traffic is
    /// ready, and passes the turn on. None where there is nothing to serve.
    pub fn next_source(&mut self, inbound_ready: bool) -> (served: Option<Source>)
        ensures
            (final(self)@, served) == old(self)@.next_source(inbound_ready),
            final(self)@.wf(),
    {
        proof {
            use_type_invariant(&*self);
        }
        let outbound_ready = self.queue.len() > 0;
        let live = match self.phase {
            Phase::Connected => true,
            _ => false,
        };
        if !live || !(inbound_ready || outbound_ready) {
            return None;
        }
        let served = if inbound_ready && outbound_ready {
            self.turn
        } else if inbound_ready {
            Source::Inbound
        } else {
            Source::Outbound
        };
        self.turn = match served {
            Source::Inbound => Source::Outbound,
            Source::Outbound => Source::Inbound,
        };
        Some(served)
    }

    /// Answers one signal of the driver.
    pub fn step(&mut self, signal: Signal) -> (reaction: Reaction)
        ensures
            final(self)@ == next(old(self)@, signal@).state,
            reaction.event_view() == next(old(self)@, signal@).event,
            reaction.command@ == next(old(self)@, signal@).command,
            final(self)@.wf(),
    {
        proof {
            use_type_invariant(&*self);
        }
        if self.halted {
            return self.ignore();
        }
        match self.phase {
            Phase::Disconnected => match signal {
                Signal::RetryElapsed => {
                    self.phase = Phase::Connecting;
                    Reaction { event: None, command: self.connect_command() }
                },
                Signal::Shutdown => self.halt(),
                _ => self.ignore(),
            },
            Phase::Connecting => match signal {
                Signal::ConnectSuccess => self.begin_generation(),
                Signal::ConnectFailure => self.lose_connection(),
                Signal::Shutdown => self.halt(),
                _ => self.ignore(),
            },
            Phase::Connected => match signal {
                Signal::Inbound(bytes) => {
                    let event = match ChatMessage::from_payload(bytes) {
                        Some(message) => Some(Event::MessageReceived(message)),
                        None => None,
                    };
                    Reaction { event, command: Command::Serve }
                },
                Signal::OutboundReady => self.serve_outbound(),
                Signal::StreamTerminated => self.lose_connection(),
                Signal::PublishFailure => self.lose_connection(),
                Signal::Shutdown => self.halt(),
                _ => self.ignore(),
            },
        }
    }

    /// Answers the signals one after the other, and hands back what the run
    /// has given. Whatever the signals, no two `Connected` events come without
    /// a `Disconnected` between them, and from a bridge without a live
    /// generation every message comes inside one.
    pub fn replay(&mut self, signals: Vec<Signal>) -> (transcript: Transcript)
        ensures
            final(self)@ == run(old(self)@, signal_views(signals@)).state,
            event_views(transcript.events@) == run(old(self)@, signal_views(signals@)).events,
            command_views(transcript.commands@) == run(
                old(self)@,
                signal_views(signals@),
            ).commands,
            final(self)@.wf(),
            connected_never_repeats(event_views(transcript.events@)),
            old(self)@.phase != Phase::Connected ==> messages_inside_generations(
                event_views(transcript.events@),
            ),
    {
        proof {
            use_type_invariant(&*self);
        }
        let ghost start = self@;
        let ghost all = signal_views(signals@);
        proof {
            lemma_connected_never_repeats(start, all);
            if start.phase != Phase::Connected {
                lemma_messages_inside_generations(start, all);
            }
        }
        let mut events: Vec<Event> = Vec::new();
        let mut commands: Vec<Command> = Vec::new();
        for signal in given: signals.into_iter()
            invariant
                given.seq() == signals@,
                all == signal_views(signals@),
                self@ == run(start, all.take(given.index() as int)).state,
                event_views(events@) == run(start, all.take(given.index() as int)).events,
                command_views(commands@) == run(start, all.take(given.index() as int)).commands,
                self@.wf(),
        {
            proof {
                let done = given.index() as int;
                assert(all.take(done + 1).drop_last() =~= all.take(done));
            }
            let reaction = self.step(signal);
            match reaction.event {
                Some(event) => {
                    events.push(event);
                },
                None => {},
            }
            commands.push(reaction.command);
        }
        assert(all.take(signals@.len() as int) =~= all);
        Transcript { events, commands }
    }

    /// The attempt to connect, with the address and subject of the settings.
    fn connect_command(&self) -> (command: Command)
        ensures
            command@ == self@.connect_command(),
    {
        Command::Connect {
            address: self.config.address.clone(),
            subject: self.config.inbound_subject.clone(),
        }
    }

    /// The command that belongs to the phase.
    fn standing_command(&self) -> (command: Command)
        ensures
            command@ == self@.standing_command(),
    {
        if self.halted {
            Command::Stop
        } else {
            match self.phase {
                Phase::Disconnected => Command::Wait(self.config.retry_delay_ms),
                Phase::Connecting => self.connect_command(),
                Phase::Connected => Command::Serve,
            }
        }
    }

    /// The answer to a signal that does not fit the phase.
    fn ignore(&self) -> (reaction: Reaction)
        ensures
            reaction.event_view() == self@.ignore().event,
            reaction.command@ == self@.ignore().command,
    {
        Reaction { event: None, command: self.standing_command() }
    }

    /// The transport has connected: the next generation begins, unless the
    /// numbers have run out.
    fn begin_generation(&mut self) -> (reaction: Reaction)
        requires
            old(self)@.phase == Phase::Connecting,
            !old(self)@.halted,
        ensures
            final(self)@ == old(self)@.when_connecting(SignalView::ConnectSuccess).state,
            reaction.event_view() == old(self)@.when_connecting(SignalView::ConnectSuccess).event,
            reaction.command@ == old(self)@.when_connecting(SignalView::ConnectSuccess).command,
            final(self)@.wf(),
    {
        proof {
            use_type_invariant(&*self);
        }
        if self.generation < u64::MAX {
            let generation: u64 = self.generation + 1;
            self.generation = generation;
            self.phase = Phase::Connected;
            Reaction {
                event: Some(Event::Connected(Connection::issue(generation))),
                command: Command::Serve,
            }
        } else {
            self.halt()
        }
    }

    /// The connection is gone, or could not be made: what waited is dropped
    /// and the retry pause begins.
    fn lose_connection(&mut self) -> (reaction: Reaction)
        ensures
            final(self)@ == old(self)@.lose_connection().state,
            reaction.event_view() == old(self)@.lose_connection().event,
            reaction.command@ == old(self)@.lose_connection().command,
            final(self)@.wf(),
    {
        proof {
            use_type_invariant(&*self);
        }
        self.queue = OutboundQueue::new(self.config.queue_capacity);
        self.phase = Phase::Disconnected;
        Reaction {
            event: Some(Event::Disconnected),
            command: Command::Wait(self.config.retry_delay_ms),
        }
    }

    /// The bridge stops for good.
    fn halt(&mut self) -> (reaction: Reaction)
        ensures
            final(self)@ == old(self)@.halt().state,
            reaction.event_view() == old(self)@.halt().event,
            reaction.command@ == old(self)@.halt().command,
            final(self)@.wf(),
    {
        proof {
            use_type_invariant(&*self);
        }
        let event = match self.phase {
            Phase::Connected => Some(Event::Disconnected),
            _ => None,
        };
        self.queue = OutboundQueue::new(self.config.queue_capacity);
        self.phase = Phase::Disconnected;
        self.halted = true;
        Reaction { event, command: Command::Stop }
    }

    /// The oldest waiting message leaves the queue.
    fn serve_outbound(&mut self) -> (reaction: Reaction)
        requires
            old(self)@.phase == Phase::Connected,
            !old(self)@.halted,
        ensures
            final(self)@ == old(self)@.serve_outbound().state,
            reaction.event_view() == old(self)@.serve_outbound().event,
            reaction.command@ == old(self)@.serve_outbound().command,
            final(self)@.wf(),
    {
        proof {
            use_type_invariant(&*self);
        }
        let mut queue = OutboundQueue::new(self.config.queue_capacity);
        std::mem::swap(&mut queue, &mut self.queue);
        let taken = queue.pop();
        self.queue = queue;
        let command = match taken {
            Some(message) => match message.payload() {
                Some(payload) => Command::Publish {
                    subject: self.config.outbound_subject.clone(),
                    payload,
                },
                None => Command::Serve,
            },
            None => Command::Serve,
        };
        Reaction { event: None, command }
    }
}

} // verus!
