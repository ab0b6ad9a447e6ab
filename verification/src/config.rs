//! What a bridge is set up with.

use vstd::prelude::*;
use vstd::string::*;

verus! {

/// The broker address used where none is given.
pub const DEFAULT_ADDRESS: &'static str = "nats://localhost:4222";

/// The subject used, both ways, where none is given.
pub const DEFAULT_SUBJECT: &'static str = "chat";

/// The pause between a disconnect and the next attempt, in milliseconds.
pub const DEFAULT_RETRY_DELAY_MS: u64 = 1000;

/// The number of outbound messages that may wait to be published.
pub const DEFAULT_QUEUE_CAPACITY: usize = 100;

/// The settings of one bridge, fixed when it is made.
#[derive(Debug)]
pub struct Config {
    /// Where the broker is reached, such as `scheme://host:port`.
    pub address: String,
    /// The one subject the bridge subscribes to.
    pub inbound_subject: String,
    /// The one subject the bridge publishes to.
    pub outbound_subject: String,
    /// The pause after every disconnect, in milliseconds.
    pub retry_delay_ms: u64,
    /// The most outbound messages that may wait at once.
    pub queue_capacity: usize,
}

/// A [`Config`] with its strings as sequences of characters.
pub struct ConfigView {
    pub address: Seq<char>,
    pub inbound_subject: Seq<char>,
    pub outbound_subject: Seq<char>,
    pub retry_delay_ms: u64,
    pub queue_capacity: usize,
}

impl View for Config {
    type V = ConfigView;

    open spec fn view(&self) -> ConfigView {
        ConfigView {
            address: self.address@,
            inbound_subject: self.inbound_subject@,
            outbound_subject: self.outbound_subject@,
            retry_delay_ms: self.retry_delay_ms,
            queue_capacity: self.queue_capacity,
        }
    }
}

impl ConfigView {
    /// The settings used where none are given.
    pub open spec fn defaults() -> ConfigView {
        ConfigView {
            address: DEFAULT_ADDRESS@,
            inbound_subject: DEFAULT_SUBJECT@,
            outbound_subject: DEFAULT_SUBJECT@,
            retry_delay_ms: DEFAULT_RETRY_DELAY_MS,
            queue_capacity: DEFAULT_QUEUE_CAPACITY,
        }
    }
}

impl Config {
    /// Settings for the broker at `address`, with one subject to listen on and
    /// one to publish to, and the default pause and queue capacity.
    pub fn new(address: &str, inbound_subject: &str, outbound_subject: &str) -> (config: Self)
        ensures
            config@ == (ConfigView {
                address: address@,
                inbound_subject: inbound_subject@,
                outbound_subject: outbound_subject@,
                ..ConfigView::defaults()
            }),
    {
        Config {
            address: address.to_owned(),
            inbound_subject: inbound_subject.to_owned(),
            outbound_subject: outbound_subject.to_owned(),
            retry_delay_ms: DEFAULT_RETRY_DELAY_MS,
            queue_capacity: DEFAULT_QUEUE_CAPACITY,
        }
    }
}

impl Default for Config {
    fn default() -> (config: Self)
        ensures
            config@ == ConfigView::defaults(),
    {
        Config::new(DEFAULT_ADDRESS, DEFAULT_SUBJECT, DEFAULT_SUBJECT)
    }
}

impl Clone for Config {
    fn clone(&self) -> (copy: Self)
        ensures
            copy@ == self@,
    {
        Config {
            address: self.address.clone(),
            inbound_subject: self.inbound_subject.clone(),
            outbound_subject: self.outbound_subject.clone(),
            retry_delay_ms: self.retry_delay_ms,
            queue_capacity: self.queue_capacity,
        }
    }
}

} // verus!
