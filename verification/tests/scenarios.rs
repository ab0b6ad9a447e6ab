use nats_bridge::{
    connect, ChatMessage, Command, Config, Connection, Event, Phase, SendError, Signal, Supervisor,
};

fn user(text: &str) -> ChatMessage {
    ChatMessage::User(text.to_string())
}

/// The attempt to connect of the default settings.
fn dial() -> Command {
    Command::Connect { address: "nats://localhost:4222".to_string(), subject: "chat".to_string() }
}

/// The command to publish `payload` on the default subject.
fn publish(payload: &[u8]) -> Command {
    Command::Publish { subject: "chat".to_string(), payload: payload.to_vec() }
}

/// Feeds the signals to the bridge and collects what the consumer observes.
fn observe(supervisor: &mut Supervisor, signals: Vec<Signal>) -> Vec<Event> {
    supervisor.replay(signals).events
}

fn handle_of(event: &Event) -> Connection {
    match event {
        Event::Connected(handle) => *handle,
        other => panic!("expected a handle, got {:?}", other),
    }
}

#[test]
fn hello_goes_out_and_comes_back_unchanged() {
    let (mut supervisor, command) = connect(Config::default());
    assert_eq!(command, dial());

    let reaction = supervisor.step(Signal::ConnectSuccess);
    assert_eq!(reaction.command, Command::Serve);
    let mut handle = handle_of(&reaction.event.expect("the consumer learns of the connection"));

    assert_eq!(handle.send(&mut supervisor, user("hello")), Ok(()));

    let reaction = supervisor.step(Signal::OutboundReady);
    assert_eq!(reaction.event, None);
    let published = match reaction.command {
        Command::Publish { subject, payload } => {
            assert_eq!(subject, "chat");
            payload
        },
        other => panic!("expected a publish, got {:?}", other),
    };
    assert_eq!(published, vec![0x68, 0x65, 0x6c, 0x6c, 0x6f]);
    assert_eq!(supervisor.step(Signal::PublishSuccess).command, Command::Serve);

    // The broker echoes the payload on the subscribed subject.
    let reaction = supervisor.step(Signal::Inbound(published));
    assert_eq!(reaction.event, Some(Event::MessageReceived(user("hello"))));
    assert_eq!(reaction.command, Command::Serve);
}

#[test]
fn three_failed_attempts_then_a_connection() {
    let mut config = Config::default();
    config.retry_delay_ms = 250;
    let (mut supervisor, mut command) = connect(config);
    let mut events = Vec::new();
    let mut pauses = Vec::new();
    let mut attempts = 0;
    // The transport fails three times, then succeeds.
    while events.len() < 4 {
        let signal = match command {
            Command::Connect { .. } => {
                attempts += 1;
                if attempts <= 3 {
                    Signal::ConnectFailure
                } else {
                    Signal::ConnectSuccess
                }
            },
            Command::Wait(millis) => {
                pauses.push(millis);
                Signal::RetryElapsed
            },
            other => panic!("unexpected command {:?}", other),
        };
        let reaction = supervisor.step(signal);
        if let Some(event) = reaction.event {
            events.push(event);
        }
        command = reaction.command;
    }
    assert_eq!(attempts, 4);
    assert_eq!(pauses, vec![250, 250, 250]);
    assert_eq!(events[0], Event::Disconnected);
    assert_eq!(events[1], Event::Disconnected);
    assert_eq!(events[2], Event::Disconnected);
    assert_eq!(handle_of(&events[3]).generation(), 1);
    assert_eq!(command, Command::Serve);
    assert_eq!(supervisor.phase(), Phase::Connected);
}

#[test]
fn a_handle_of_an_ended_generation_is_refused() {
    let (mut supervisor, _) = connect(Config::default());
    let first = supervisor.step(Signal::ConnectSuccess).event.expect("connected");
    let mut old = handle_of(&first);
    assert_eq!(old.send(&mut supervisor, user("in time")), Ok(()));

    assert_eq!(supervisor.step(Signal::StreamTerminated).event, Some(Event::Disconnected));
    assert_eq!(old.send(&mut supervisor, user("too late")), Err(SendError::StaleConnection));

    assert_eq!(supervisor.step(Signal::RetryElapsed).command, dial());
    let second = supervisor.step(Signal::ConnectSuccess).event.expect("connected again");
    let mut new = handle_of(&second);
    assert_eq!(new.generation(), 2);

    assert_eq!(old.send(&mut supervisor, user("stale")), Err(SendError::StaleConnection));
    // Nothing was queued, so nothing of it will be published.
    assert_eq!(supervisor.pending(), 0);
    assert_eq!(supervisor.step(Signal::OutboundReady).command, Command::Serve);

    assert_eq!(new.send(&mut supervisor, user("fresh")), Ok(()));
    assert_eq!(
        supervisor.step(Signal::OutboundReady).command,
        publish(b"fresh")
    );
}

#[test]
fn the_send_after_a_full_queue_is_refused() {
    let (mut supervisor, _) = connect(Config::default());
    let mut handle = handle_of(&supervisor.step(Signal::ConnectSuccess).event.expect("connected"));
    for number in 0..100 {
        assert_eq!(handle.send(&mut supervisor, user(&format!("message {}", number))), Ok(()));
    }
    assert_eq!(supervisor.pending(), 100);
    assert_eq!(handle.send(&mut supervisor, user("one too many")), Err(SendError::QueueFull));
    assert_eq!(handle.send(&mut supervisor, user("and again")), Err(SendError::QueueFull));
    assert_eq!(supervisor.pending(), 100);

    // Once the supervisor has drained one, there is room for one.
    assert_eq!(
        supervisor.step(Signal::OutboundReady).command,
        publish(b"message 0")
    );
    assert_eq!(handle.send(&mut supervisor, user("now it fits")), Ok(()));
    assert_eq!(handle.send(&mut supervisor, user("no more")), Err(SendError::QueueFull));

    // What was refused was never queued.
    for number in 1..100 {
        assert_eq!(
            supervisor.step(Signal::OutboundReady).command,
            publish(format!("message {}", number).as_bytes())
        );
    }
    assert_eq!(
        supervisor.step(Signal::OutboundReady).command,
        publish(b"now it fits")
    );
    assert_eq!(supervisor.step(Signal::OutboundReady).command, Command::Serve);
}

#[test]
fn a_broker_that_stays_away_is_retried_without_end() {
    let (mut supervisor, mut command) = connect(Config::default());
    let mut disconnected = 0;
    for _ in 0..10_000 {
        assert_eq!(command, dial());
        let failed = supervisor.step(Signal::ConnectFailure);
        assert_eq!(failed.event, Some(Event::Disconnected));
        assert_eq!(failed.command, Command::Wait(1000));
        disconnected += 1;
        let retried = supervisor.step(Signal::RetryElapsed);
        assert_eq!(retried.event, None);
        command = retried.command;
    }
    assert_eq!(disconnected, 10_000);
    assert!(!supervisor.is_halted());
    assert_eq!(supervisor.phase(), Phase::Connecting);
    assert_eq!(supervisor.generation(), 0);
}

#[test]
fn connected_and_disconnected_take_turns() {
    let (mut supervisor, _) = connect(Config::default());
    let events = observe(
        &mut supervisor,
        vec![
            Signal::ConnectSuccess,
            Signal::ConnectSuccess,
            Signal::Inbound(b"a".to_vec()),
            Signal::StreamTerminated,
            Signal::StreamTerminated,
            Signal::PublishFailure,
            Signal::RetryElapsed,
            Signal::ConnectSuccess,
            Signal::Inbound(b"b".to_vec()),
            Signal::PublishFailure,
            Signal::ConnectSuccess,
            Signal::RetryElapsed,
            Signal::RetryElapsed,
            Signal::ConnectSuccess,
            Signal::Shutdown,
            Signal::ConnectSuccess,
        ],
    );
    let kinds: Vec<&str> = events
        .iter()
        .map(|event| match event {
            Event::Connected(_) => "connected",
            Event::Disconnected => "disconnected",
            Event::MessageReceived(_) => "message",
        })
        .collect();
    assert_eq!(
        kinds,
        vec![
            "connected",
            "message",
            "disconnected",
            "connected",
            "message",
            "disconnected",
            "connected",
            "disconnected"
        ]
    );
    let generations: Vec<u64> = events
        .iter()
        .filter_map(|event| match event {
            Event::Connected(handle) => Some(handle.generation()),
            _ => None,
        })
        .collect();
    assert_eq!(generations, vec![1, 2, 3]);
}

#[test]
fn failed_attempts_repeat_disconnected() {
    let (mut supervisor, _) = connect(Config::default());
    let events = observe(
        &mut supervisor,
        vec![Signal::ConnectFailure, Signal::RetryElapsed, Signal::ConnectFailure],
    );
    assert_eq!(events, vec![Event::Disconnected, Event::Disconnected]);
}

#[test]
fn messages_arrive_only_inside_a_generation() {
    let (mut supervisor, _) = connect(Config::default());
    let events = observe(
        &mut supervisor,
        vec![
            Signal::Inbound(b"before".to_vec()),
            Signal::ConnectSuccess,
            Signal::Inbound(b"during".to_vec()),
            Signal::StreamTerminated,
            Signal::Inbound(b"after".to_vec()),
            Signal::RetryElapsed,
            Signal::Inbound(b"while connecting".to_vec()),
            Signal::ConnectSuccess,
            Signal::Inbound(b"again".to_vec()),
        ],
    );
    assert_eq!(events.len(), 5);
    assert_eq!(handle_of(&events[0]).generation(), 1);
    assert_eq!(events[1], Event::MessageReceived(user("during")));
    assert_eq!(events[2], Event::Disconnected);
    assert_eq!(handle_of(&events[3]).generation(), 2);
    assert_eq!(events[4], Event::MessageReceived(user("again")));
}

#[test]
fn a_cloned_event_is_equal() {
    let (mut supervisor, _) = connect(Config::default());
    let connected = supervisor.step(Signal::ConnectSuccess).event.expect("connected");
    assert_eq!(connected.clone(), connected);
    let message = Event::MessageReceived(user("x"));
    assert_eq!(message.clone(), message);
    assert_eq!(Event::Disconnected.clone(), Event::Disconnected);
}

#[test]
fn a_replay_answers_every_signal_in_order() {
    let mut config = Config::default();
    config.retry_delay_ms = 5;
    let (mut supervisor, _) = connect(config);
    let transcript = supervisor.replay(vec![
        Signal::ConnectFailure,
        Signal::RetryElapsed,
        Signal::ConnectSuccess,
        Signal::Inbound(b"one".to_vec()),
        Signal::Inbound(vec![0x80]),
        Signal::OutboundReady,
        Signal::PublishFailure,
        Signal::Shutdown,
        Signal::RetryElapsed,
    ]);
    assert_eq!(
        transcript.commands,
        vec![
            Command::Wait(5),
            dial(),
            Command::Serve,
            Command::Serve,
            Command::Serve,
            Command::Serve,
            Command::Wait(5),
            Command::Stop,
            Command::Stop,
        ]
    );
    assert_eq!(transcript.events.len(), 4);
    assert_eq!(transcript.events[0], Event::Disconnected);
    assert_eq!(handle_of(&transcript.events[1]).generation(), 1);
    assert_eq!(transcript.events[2], Event::MessageReceived(user("one")));
    assert_eq!(transcript.events[3], Event::Disconnected);
    assert!(supervisor.is_halted());
}

#[test]
fn a_replay_of_nothing_changes_nothing() {
    let (mut supervisor, _) = connect(Config::default());
    let transcript = supervisor.replay(Vec::new());
    assert!(transcript.events.is_empty());
    assert!(transcript.commands.is_empty());
    assert_eq!(supervisor.phase(), Phase::Connecting);
    assert_eq!(supervisor.generation(), 0);
}

#[test]
fn a_replay_is_the_same_as_its_steps() {
    let script = || {
        vec![
            Signal::ConnectSuccess,
            Signal::Inbound(b"x".to_vec()),
            Signal::StreamTerminated,
            Signal::RetryElapsed,
            Signal::ConnectFailure,
        ]
    };
    let (mut replayed, _) = connect(Config::default());
    let transcript = replayed.replay(script());
    let (mut stepped, _) = connect(Config::default());
    let mut events = Vec::new();
    let mut commands = Vec::new();
    for signal in script() {
        let reaction = stepped.step(signal);
        events.extend(reaction.event);
        commands.push(reaction.command);
    }
    assert_eq!(transcript.events, events);
    assert_eq!(transcript.commands, commands);
    assert_eq!(replayed.phase(), stepped.phase());
    assert_eq!(replayed.generation(), stepped.generation());
}
