//! A resilient bridge between a publish/subscribe broker and a single consumer.
//!
//! The crate holds the decisions of the bridge and none of its waiting: a
//! driver performs each [`Command`] (connect, sleep, publish, wait for
//! traffic) and reports what happened as a [`Signal`]; the [`Supervisor`]
//! answers with the next command and, at most, one [`Event`] for the consumer.
//! The consumer sends through the [`Connection`] handle of the live
//! generation.

pub mod config;
pub mod connection;
pub mod event;
pub mod history;
pub mod message;
pub mod model;
pub mod queue;
pub mod supervisor;

pub use config::Config;
pub use connection::{Connection, SendError};
pub use event::Event;
pub use message::ChatMessage;
pub use model::{Phase, Source};
pub use queue::OutboundQueue;
pub use supervisor::{connect, Command, Reaction, Signal, Supervisor, Transcript};
