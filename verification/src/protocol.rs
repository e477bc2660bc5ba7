//! The vocabulary that the controller and its driver share: what the driver
//! reports (signals), what the controller asks for (actions), what is to be
//! logged (notices), and how a run can end.

use vstd::prelude::*;
use crate::door::{Command, Status};
use crate::hardware::LineOp;

verus! {

/// Seconds between two periodic re-reads of the sensor.
pub const TICK_SECS: u64 = 60;

/// Why a run of the controller failed.
#[derive(Clone, Copy, Debug, PartialEq, Eq, Structural)]
pub enum Failure {
    /// A line could not be exported or configured.
    LineSetup,
    /// The change streams of the input lines could not be opened.
    StreamOpen,
    /// The bus client could not be set up.
    BusConnect,
    /// The discovery descriptor could not be built or published.
    Announce,
    /// The command topic could not be subscribed to.
    Subscribe,
    /// The sensor line could not be read.
    StatusRead,
    /// The door state could not be published.
    StatePublish,
    /// The change stream of the sensor reported an error.
    StatusEvents,
    /// The change stream of the trigger input reported an error.
    TriggerEvents,
    /// A step of the relay pulse failed.
    Relay,
}

/// How a run of the controller ended.
#[derive(Clone, Copy, Debug, PartialEq, Eq, Structural)]
pub enum Outcome {
    Success,
    Failed(Failure),
}

/// One item of the change stream of an input line.
#[derive(Clone, Copy, Debug, PartialEq, Eq, Structural)]
pub enum Sample {
    /// An edge was seen; the line now has this raw value.
    Value(u8),
    /// The stream reported an error.
    Failed,
    /// The stream has ended.
    Closed,
}

/// What the driver reports to the controller: either the event that ended a
/// wait on all sources, or the completion of the operation that the
/// controller asked for.
#[derive(Clone, Copy, Debug)]
pub enum Signal {
    /// The periodic timer fired.
    Tick,
    /// The change stream of the sensor yielded an item.
    StatusEdge(Sample),
    /// The change stream of the trigger input yielded an item.
    TriggerEdge(Sample),
    /// A well-formed command arrived on the command topic.
    Command(Command),
    /// Something that is no command arrived on the command topic.
    InvalidPayload,
    /// A message arrived on another topic.
    ForeignTopic,
    /// The bus reported a protocol event that is no incoming message.
    BusOther,
    /// The bus reported an error.
    BusError,
    /// The event stream of the bus has ended.
    BusClosed,
    /// The operator asked the controller to stop.
    Shutdown,
    /// A read of a line has finished, with the raw value unless it failed.
    Read(Option<u8>),
    /// Any other operation has finished, successfully or not.
    Done(bool),
}

/// What the controller asks the driver to do next. Each action is answered
/// by exactly one signal: `Wait` by the event of a source, a read of a line by
/// `Read`, `Exit` by nothing, and every other action by `Done`.
#[derive(Clone, Copy, Debug, PartialEq, Eq, Structural)]
pub enum Action {
    /// Perform an operation on a line.
    Line(LineOp),
    /// Open the change streams of the sensor and of the trigger input, and
    /// start the periodic timer.
    OpenStreams,
    /// Set up the bus client.
    Connect,
    /// Publish the discovery descriptor.
    Announce,
    /// Subscribe to the command topic.
    Subscribe,
    /// Publish the given door state, retained.
    PublishState(Status),
    /// Wait on all event sources at once and report the first that is ready.
    Wait,
    /// Acquire the lock that guards the relay.
    Lock,
    /// Suspend for the given number of milliseconds.
    Hold(u64),
    /// Release the lock that guards the relay.
    Unlock,
    /// End the run with the given outcome.
    Exit(Outcome),
}

/// What the operator is told about a step of the controller.
#[derive(Clone, Copy, Debug, PartialEq, Eq, Structural)]
pub enum Notice {
    /// Nothing worth a line.
    Silent,
    /// The door state that is published at start-up.
    InitialStatus(Status),
    /// The sensor reported an edge; the door is now in this position.
    StatusDetected(Status),
    /// The manual trigger was pressed.
    TriggerDetected,
    /// A payload on the command topic was no command.
    InvalidPayload,
    /// A message arrived on a topic other than the command topic.
    ForeignTopic,
    /// The bus reported an error.
    BusError,
    /// A command asks for the other position: the relay is pulsed.
    CommandAccepted(Command, Status),
    /// A command asks for the position the door is in: nothing is done.
    CommandIgnored(Command, Status),
    /// The lock is held and the relay pulse begins.
    PulseStarted,
    /// The operator asked the controller to stop.
    ShutdownRequested,
    /// An event stream has ended.
    StreamEnded,
    /// The run fails for the given reason.
    Failed(Failure),
}

/// The controller's answer to a signal.
#[derive(Clone, Copy, Debug, PartialEq, Eq, Structural)]
pub struct Reaction {
    /// What the driver is to do next.
    pub action: Action,
    /// What the operator is to be told.
    pub notice: Notice,
}

} // verus!
