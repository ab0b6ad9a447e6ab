use nats_bridge::{connect, Command, Config, Event, Phase, Signal, Supervisor};

#[derive(Debug, Clone, Copy, PartialEq, Eq)]
enum Told {
    Nothing,
    Connected,
    Disconnected,
    Message,
}

fn told(event: &Option<Event>) -> Told {
    match event {
        None => Told::Nothing,
        Some(Event::Connected(_)) => Told::Connected,
        Some(Event::Disconnected) => Told::Disconnected,
        Some(Event::MessageReceived(_)) => Told::Message,
    }
}

/// The attempt to connect of the default settings.
fn dial() -> Command {
    Command::Connect { address: "nats://localhost:4222".to_string(), subject: "chat".to_string() }
}

fn config() -> Config {
    let mut config = Config::default();
    config.retry_delay_ms = 7;
    config
}

fn connecting() -> Supervisor {
    connect(config()).0
}

fn pausing() -> Supervisor {
    let mut supervisor = connecting();
    supervisor.step(Signal::ConnectFailure);
    supervisor
}

fn serving() -> Supervisor {
    let mut supervisor = connecting();
    supervisor.step(Signal::ConnectSuccess);
    supervisor
}

fn stopped() -> Supervisor {
    let mut supervisor = connecting();
    supervisor.step(Signal::Shutdown);
    supervisor
}

fn signals() -> Vec<Signal> {
    vec![
        Signal::ConnectSuccess,
        Signal::ConnectFailure,
        Signal::RetryElapsed,
        Signal::Inbound(b"text".to_vec()),
        Signal::StreamTerminated,
        Signal::OutboundReady,
        Signal::PublishSuccess,
        Signal::PublishFailure,
        Signal::Shutdown,
    ]
}

/// Checks one row of the table: the answers of a bridge made by `make` to
/// each signal, in the order of `signals`.
fn check(make: fn() -> Supervisor, expected: [(Told, Command, Phase, bool); 9]) {
    for (signal, (event, command, phase, halted)) in signals().into_iter().zip(expected) {
        let mut supervisor = make();
        let shown = format!("{:?}", signal);
        let reaction = supervisor.step(signal);
        assert_eq!(told(&reaction.event), event, "event after {}", shown);
        assert_eq!(reaction.command, command, "command after {}", shown);
        assert_eq!(supervisor.phase(), phase, "phase after {}", shown);
        assert_eq!(supervisor.is_halted(), halted, "halted after {}", shown);
        assert_eq!(supervisor.pending(), 0, "queue after {}", shown);
    }
}

#[test]
fn the_answers_while_connecting() {
    check(
        connecting,
        [
            (Told::Connected, Command::Serve, Phase::Connected, false),
            (Told::Disconnected, Command::Wait(7), Phase::Disconnected, false),
            (Told::Nothing, dial(), Phase::Connecting, false),
            (Told::Nothing, dial(), Phase::Connecting, false),
            (Told::Nothing, dial(), Phase::Connecting, false),
            (Told::Nothing, dial(), Phase::Connecting, false),
            (Told::Nothing, dial(), Phase::Connecting, false),
            (Told::Nothing, dial(), Phase::Connecting, false),
            (Told::Nothing, Command::Stop, Phase::Disconnected, true),
        ],
    );
}

#[test]
fn the_answers_during_the_pause() {
    check(
        pausing,
        [
            (Told::Nothing, Command::Wait(7), Phase::Disconnected, false),
            (Told::Nothing, Command::Wait(7), Phase::Disconnected, false),
            (Told::Nothing, dial(), Phase::Connecting, false),
            (Told::Nothing, Command::Wait(7), Phase::Disconnected, false),
            (Told::Nothing, Command::Wait(7), Phase::Disconnected, false),
            (Told::Nothing, Command::Wait(7), Phase::Disconnected, false),
            (Told::Nothing, Command::Wait(7), Phase::Disconnected, false),
            (Told::Nothing, Command::Wait(7), Phase::Disconnected, false),
            (Told::Nothing, Command::Stop, Phase::Disconnected, true),
        ],
    );
}

#[test]
fn the_answers_while_connected() {
    check(
        serving,
        [
            (Told::Nothing, Command::Serve, Phase::Connected, false),
            (Told::Nothing, Command::Serve, Phase::Connected, false),
            (Told::Nothing, Command::Serve, Phase::Connected, false),
            (Told::Message, Command::Serve, Phase::Connected, false),
            (Told::Disconnected, Command::Wait(7), Phase::Disconnected, false),
            (Told::Nothing, Command::Serve, Phase::Connected, false),
            (Told::Nothing, Command::Serve, Phase::Connected, false),
            (Told::Disconnected, Command::Wait(7), Phase::Disconnected, false),
            (Told::Disconnected, Command::Stop, Phase::Disconnected, true),
        ],
    );
}

#[test]
fn the_answers_once_stopped() {
    check(
        stopped,
        [
            (Told::Nothing, Command::Stop, Phase::Disconnected, true),
            (Told::Nothing, Command::Stop, Phase::Disconnected, true),
            (Told::Nothing, Command::Stop, Phase::Disconnected, true),
            (Told::Nothing, Command::Stop, Phase::Disconnected, true),
            (Told::Nothing, Command::Stop, Phase::Disconnected, true),
            (Told::Nothing, Command::Stop, Phase::Disconnected, true),
            (Told::Nothing, Command::Stop, Phase::Disconnected, true),
            (Told::Nothing, Command::Stop, Phase::Disconnected, true),
            (Told::Nothing, Command::Stop, Phase::Disconnected, true),
        ],
    );
}
