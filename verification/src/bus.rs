//! What goes over the message bus, as plain values: the topics, the messages
//! that the controller publishes, the subscription it takes out, and the
//! events that the bus and the other sources hand to it.

use vstd::prelude::*;
use vstd::string::*;
use vstd::utf8::*;
use crate::door::{ascii_bytes, command_of, Command, Status};
use crate::protocol::{Sample, Signal};

verus! {

/// Delivery guarantee of a message or a subscription.
#[derive(Clone, Copy, Debug, PartialEq, Eq, Structural)]
pub enum Qos {
    AtMostOnce,
    AtLeastOnce,
    ExactlyOnce,
}

/// The three topics of one door. They are fixed once they are derived from
/// the base path.
#[derive(Debug)]
pub struct Topics {
    /// Where the discovery descriptor is published.
    pub config: String,
    /// Where commands arrive.
    pub command: String,
    /// Where the door state is published.
    pub state: String,
}

/// A message to publish.
#[derive(Debug)]
pub struct Publication {
    pub topic: String,
    pub qos: Qos,
    pub retain: bool,
    pub payload: Vec<u8>,
}

/// A subscription to take out.
#[derive(Debug)]
pub struct Subscription {
    pub topic: String,
    pub qos: Qos,
}

/// What a driver can report, before the controller has made sense of it.
#[derive(Debug)]
pub enum Event {
    /// The periodic timer fired.
    Tick,
    /// The change stream of the sensor yielded an item.
    StatusEdge(Sample),
    /// The change stream of the trigger input yielded an item.
    TriggerEdge(Sample),
    /// A message arrived from the bus.
    Message { topic: String, payload: Vec<u8> },
    /// The bus reported a protocol event that is no incoming message.
    BusOther,
    /// The bus reported an error.
    BusError,
    /// The event stream of the bus has ended.
    BusClosed,
    /// The operator asked the controller to stop.
    Shutdown,
    /// A read of a line has finished, with the raw value unless it failed.
    Read(Option<u8>),
    /// Any other operation has finished, successfully or not.
    Done(bool),
}

/// What a message means to a controller that listens on `command_topic`.
pub open spec fn message_signal(command_topic: Seq<char>, topic: Seq<char>, payload: Seq<u8>) -> Signal {
    if topic == command_topic {
        match command_of(payload) {
            Some(command) => Signal::Command(command),
            None => Signal::InvalidPayload,
        }
    } else {
        Signal::ForeignTopic
    }
}

/// What an event means to a controller that listens on `command_topic`.
pub open spec fn signal_of(command_topic: Seq<char>, event: Event) -> Signal {
    match event {
        Event::Tick => Signal::Tick,
        Event::StatusEdge(sample) => Signal::StatusEdge(sample),
        Event::TriggerEdge(sample) => Signal::TriggerEdge(sample),
        Event::Message { topic, payload } => message_signal(command_topic, topic@, payload@),
        Event::BusOther => Signal::BusOther,
        Event::BusError => Signal::BusError,
        Event::BusClosed => Signal::BusClosed,
        Event::Shutdown => Signal::Shutdown,
        Event::Read(value) => Signal::Read(value),
        Event::Done(ok) => Signal::Done(ok),
    }
}

impl Topics {
    /// Derives the three topics from the base path.
    pub fn new(base: &str) -> (topics: Topics)
        ensures
            topics.config@ == base@ + "/config"@,
            topics.command@ == base@ + "/command"@,
            topics.state@ == base@ + "/state"@,
    {
        Topics {
            config: String::from_str(base).concat("/config"),
            command: String::from_str(base).concat("/command"),
            state: String::from_str(base).concat("/state"),
        }
    }

    /// The message that announces a door state: the token of the state on
    /// the state topic, delivered at least once and retained, so that a new
    /// subscriber learns the last known state.
    pub fn state_message(&self, status: Status) -> (message: Publication)
        ensures
            message.topic@ == self.state@,
            message.qos == Qos::AtLeastOnce,
            message.retain,
            message.payload@ == ascii_bytes(status.token()),
            message.payload@ == encode_utf8(status.token()),
    {
        Publication {
            topic: self.state.clone(),
            qos: Qos::AtLeastOnce,
            retain: true,
            payload: status.payload(),
        }
    }

    /// The message that carries an encoded discovery descriptor: on the
    /// config topic, delivered at least once and not retained.
    pub fn config_message(&self, descriptor: Vec<u8>) -> (message: Publication)
        ensures
            message.topic@ == self.config@,
            message.qos == Qos::AtLeastOnce,
            !message.retain,
            message.payload@ == descriptor@,
    {
        Publication {
            topic: self.config.clone(),
            qos: Qos::AtLeastOnce,
            retain: false,
            payload: descriptor,
        }
    }

    /// The subscription through which commands arrive: the command topic,
    /// each message delivered exactly once.
    pub fn subscription(&self) -> (subscription: Subscription)
        ensures
            subscription.topic@ == self.command@,
            subscription.qos == Qos::ExactlyOnce,
    {
        Subscription { topic: self.command.clone(), qos: Qos::ExactlyOnce }
    }

    /// Makes sense of an event. A message is a command only if it arrived on
    /// the command topic and its payload spells one; every other event is
    /// passed on as it is.
    pub fn interpret(&self, event: &Event) -> (signal: Signal)
        ensures
            signal == signal_of(self.command@, *event),
    {
        match event {
            Event::Tick => Signal::Tick,
            Event::StatusEdge(sample) => Signal::StatusEdge(*sample),
            Event::TriggerEdge(sample) => Signal::TriggerEdge(*sample),
            Event::Message { topic, payload } => {
                if *topic == self.command {
                    match Command::from_payload(payload.as_slice()) {
                        Some(command) => Signal::Command(command),
                        None => Signal::InvalidPayload,
                    }
                } else {
                    Signal::ForeignTopic
                }
            },
            Event::BusOther => Signal::BusOther,
            Event::BusError => Signal::BusError,
            Event::BusClosed => Signal::BusClosed,
            Event::Shutdown => Signal::Shutdown,
            Event::Read(value) => Signal::Read(*value),
            Event::Done(ok) => Signal::Done(*ok),
        }
    }
}

} // verus!
