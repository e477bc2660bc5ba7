//! The reconciliation loop as a state machine. The controller never touches
//! a pin, a timer or the bus: it asks its driver for one operation at a time
//! and is told how that operation ended. Between two waits on the event
//! sources it handles exactly one event, and while a relay pulse is under way
//! it asks for nothing but the steps of that pulse, so a second request waits
//! in its source until the first pulse is over.

use vstd::prelude::*;
use crate::door::{status_of, should_pulse, parse_door_status, Command, Status};
use crate::hardware::{Hardware, LineOp};
use crate::protocol::{Action, Failure, Notice, Outcome, Reaction, Sample, Signal};
use crate::relay::{pulse_plan, pulse_steps};

verus! {

/// Why the sensor is being read.
#[derive(Clone, Copy, Debug, PartialEq, Eq, Structural)]
pub enum Purpose {
    /// To publish the door state once at start-up.
    Initial,
    /// To publish the door state again after a tick of the timer.
    Refresh,
    /// To decide whether the given command is to be acted on.
    Judge(Command),
}

/// Where the controller stands. Every phase but `Stopped` has exactly one
/// operation outstanding.
#[derive(Clone, Copy, Debug, PartialEq, Eq, Structural)]
pub enum Phase {
    /// The set-up operation with this index is outstanding.
    Configuring(usize),
    /// The change streams are being opened.
    OpeningStreams,
    /// The bus client is being set up.
    Connecting,
    /// The discovery descriptor is being published.
    Announcing,
    /// The command topic is being subscribed to.
    Subscribing,
    /// The sensor is being read.
    Reading(Purpose),
    /// The given door state is being published.
    Publishing(Status),
    /// The driver waits on all event sources.
    Idle,
    /// The relay lock is being acquired.
    Locking,
    /// The pulse step with this index is outstanding; the lock is held.
    Pulsing(usize),
    /// The relay lock is being released after a pulse that ended this way.
    Unlocking(Outcome),
    /// The release operation with this index is outstanding; the run will
    /// end with the given outcome.
    Releasing(usize, Outcome),
    /// The run is over.
    Stopped(Outcome),
}

/// The state of the controller as a plain value.
pub struct Machine {
    pub hardware: Hardware,
    pub phase: Phase,
}

/// The phase that releases the lines before the run ends with `outcome`.
pub open spec fn winding_down(outcome: Outcome) -> Phase {
    Phase::Releasing(0, outcome)
}

/// A failure after the lines have been set up: the operator is told, and the
/// lines are released before the run ends.
pub open spec fn failing(failure: Failure) -> (Phase, Notice) {
    (winding_down(Outcome::Failed(failure)), Notice::Failed(failure))
}

/// A failure while the relay lock is asked for or held: the operator is
/// told, and the lock is given back before anything else.
pub open spec fn aborting() -> (Phase, Notice) {
    (Phase::Unlocking(Outcome::Failed(Failure::Relay)), Notice::Failed(Failure::Relay))
}

/// The end of an operation that either leads to `then` or fails the run.
pub open spec fn finish(signal: Signal, then: Phase, failure: Failure) -> Option<(Phase, Notice)> {
    match signal {
        Signal::Done(true) => Some((then, Notice::Silent)),
        Signal::Done(false) => Some(failing(failure)),
        _ => None,
    }
}

/// What follows a successful read of the sensor.
pub open spec fn after_read(purpose: Purpose, status: Status) -> (Phase, Notice) {
    match purpose {
        Purpose::Initial => (Phase::Publishing(status), Notice::InitialStatus(status)),
        Purpose::Refresh => (Phase::Publishing(status), Notice::Silent),
        Purpose::Judge(command) => if should_pulse(command, status) {
            (Phase::Locking, Notice::CommandAccepted(command, status))
        } else {
            (Phase::Idle, Notice::CommandIgnored(command, status))
        },
    }
}

/// What follows the event that ended a wait on the sources. A completion is
/// no such event.
pub open spec fn on_event(signal: Signal) -> Option<(Phase, Notice)> {
    match signal {
        Signal::Tick => Some((Phase::Reading(Purpose::Refresh), Notice::Silent)),
        Signal::StatusEdge(Sample::Value(raw)) => Some(
            (Phase::Publishing(status_of(raw)), Notice::StatusDetected(status_of(raw))),
        ),
        Signal::StatusEdge(Sample::Failed) => Some(failing(Failure::StatusEvents)),
        Signal::StatusEdge(Sample::Closed) => Some(
            (winding_down(Outcome::Success), Notice::StreamEnded),
        ),
        Signal::TriggerEdge(Sample::Value(raw)) => if raw != 0 {
            Some((Phase::Locking, Notice::TriggerDetected))
        } else {
            Some((Phase::Idle, Notice::Silent))
        },
        Signal::TriggerEdge(Sample::Failed) => Some(failing(Failure::TriggerEvents)),
        Signal::TriggerEdge(Sample::Closed) => Some(
            (winding_down(Outcome::Success), Notice::StreamEnded),
        ),
        Signal::Command(command) => Some((Phase::Reading(Purpose::Judge(command)), Notice::Silent)),
        Signal::InvalidPayload => Some((Phase::Idle, Notice::InvalidPayload)),
        Signal::ForeignTopic => Some((Phase::Idle, Notice::ForeignTopic)),
        Signal::BusOther => Some((Phase::Idle, Notice::Silent)),
        Signal::BusError => Some((Phase::Idle, Notice::BusError)),
        Signal::BusClosed => Some((winding_down(Outcome::Success), Notice::StreamEnded)),
        Signal::Shutdown => Some((winding_down(Outcome::Success), Notice::ShutdownRequested)),
        Signal::Read(_) => None,
        Signal::Done(_) => None,
    }
}

impl Machine {
    /// The state in which every run begins: nothing is set up yet.
    pub open spec fn initial(enable_led: bool) -> Machine {
        Machine { hardware: Hardware::layout(enable_led), phase: Phase::Configuring(0) }
    }

    /// The lines are well formed, and an index points into its plan.
    pub open spec fn wf(self) -> bool {
        &&& self.hardware.wf()
        &&& match self.phase {
            Phase::Configuring(i) => i < self.hardware.setup_plan().len(),
            Phase::Pulsing(k) => k < pulse_plan(self.hardware).len(),
            Phase::Releasing(i, _) => i < self.hardware.release_plan().len(),
            _ => true,
        }
    }

    /// The operation that is outstanding in this state.
    pub open spec fn pending(self) -> Action {
        match self.phase {
            Phase::Configuring(i) => Action::Line(self.hardware.setup_plan()[i as int]),
            Phase::OpeningStreams => Action::OpenStreams,
            Phase::Connecting => Action::Connect,
            Phase::Announcing => Action::Announce,
            Phase::Subscribing => Action::Subscribe,
            Phase::Reading(_) => Action::Line(LineOp::Read(self.hardware.status.pin)),
            Phase::Publishing(status) => Action::PublishState(status),
            Phase::Idle => Action::Wait,
            Phase::Locking => Action::Lock,
            Phase::Pulsing(k) => pulse_plan(self.hardware)[k as int],
            Phase::Unlocking(_) => Action::Unlock,
            Phase::Releasing(i, _) => Action::Line(self.hardware.release_plan()[i as int]),
            Phase::Stopped(outcome) => Action::Exit(outcome),
        }
    }

    /// The phase that a signal leads to and what the operator is told, or
    /// `None` where the signal does not answer the outstanding operation.
    pub open spec fn step(self, signal: Signal) -> Option<(Phase, Notice)> {
        match self.phase {
            Phase::Configuring(i) => match signal {
                Signal::Done(true) => if i + 1 < self.hardware.setup_plan().len() {
                    Some((Phase::Configuring((i + 1) as usize), Notice::Silent))
                } else {
                    Some((Phase::OpeningStreams, Notice::Silent))
                },
                Signal::Done(false) => Some(
                    (
                        Phase::Stopped(Outcome::Failed(Failure::LineSetup)),
                        Notice::Failed(Failure::LineSetup),
                    ),
                ),
                _ => None,
            },
            Phase::OpeningStreams => finish(signal, Phase::Connecting, Failure::StreamOpen),
            Phase::Connecting => finish(signal, Phase::Announcing, Failure::BusConnect),
            Phase::Announcing => finish(signal, Phase::Subscribing, Failure::Announce),
            Phase::Subscribing => finish(
                signal,
                Phase::Reading(Purpose::Initial),
                Failure::Subscribe,
            ),
            Phase::Reading(purpose) => match signal {
                Signal::Read(Some(raw)) => Some(after_read(purpose, status_of(raw))),
                Signal::Read(None) => Some(failing(Failure::StatusRead)),
                _ => None,
            },
            Phase::Publishing(_) => finish(signal, Phase::Idle, Failure::StatePublish),
            Phase::Idle => on_event(signal),
            Phase::Locking => match signal {
                Signal::Done(true) => Some((Phase::Pulsing(0), Notice::PulseStarted)),
                Signal::Done(false) => Some(aborting()),
                _ => None,
            },
            Phase::Pulsing(k) => match signal {
                Signal::Done(true) => if k + 1 < pulse_plan(self.hardware).len() {
                    Some((Phase::Pulsing((k + 1) as usize), Notice::Silent))
                } else {
                    Some((Phase::Unlocking(Outcome::Success), Notice::Silent))
                },
                Signal::Done(false) => Some(aborting()),
                _ => None,
            },
            Phase::Unlocking(outcome) => match signal {
                Signal::Done(released) => match outcome {
                    Outcome::Success => if released {
                        Some((Phase::Idle, Notice::Silent))
                    } else {
                        Some(failing(Failure::Relay))
                    },
                    Outcome::Failed(_) => Some((winding_down(outcome), Notice::Silent)),
                },
                _ => None,
            },
            Phase::Releasing(i, outcome) => match signal {
                Signal::Done(_) => if i + 1 < self.hardware.release_plan().len() {
                    Some((Phase::Releasing((i + 1) as usize, outcome), Notice::Silent))
                } else {
                    Some((Phase::Stopped(outcome), Notice::Silent))
                },
                _ => None,
            },
            Phase::Stopped(_) => None,
        }
    }

    /// Whether the signal answers the outstanding operation.
    pub open spec fn accepts(self, signal: Signal) -> bool {
        self.step(signal) is Some
    }

    /// The state after the signal. A signal that is not accepted changes
    /// nothing.
    pub open spec fn next(self, signal: Signal) -> Machine {
        match self.step(signal) {
            Some((phase, _)) => Machine { hardware: self.hardware, phase },
            None => self,
        }
    }

    /// What the operator is told when the signal arrives.
    pub open spec fn notice(self, signal: Signal) -> Notice {
        match self.step(signal) {
            Some((_, notice)) => notice,
            None => Notice::Silent,
        }
    }

    /// The answer to an accepted signal: the operation that is outstanding
    /// afterwards, and what the operator is told.
    pub open spec fn reaction(self, signal: Signal) -> Reaction {
        Reaction { action: self.next(signal).pending(), notice: self.notice(signal) }
    }

    /// How the run ended, once it is over.
    pub open spec fn outcome(self) -> Option<Outcome> {
        match self.phase {
            Phase::Stopped(outcome) => Some(outcome),
            _ => None,
        }
    }
}

/// The controller of one door.
pub struct Controller {
    hardware: Hardware,
    phase: Phase,
}

impl View for Controller {
    type V = Machine;

    closed spec fn view(&self) -> Machine {
        Machine { hardware: self.hardware, phase: self.phase }
    }
}

impl Controller {
    #[verifier::type_invariant]
    spec fn inv(self) -> bool {
        self@.wf()
    }

    /// A controller at the beginning of its run, with or without the
    /// indicator LED.
    pub fn new(enable_led: bool) -> (c: Controller)
        ensures
            c@ == Machine::initial(enable_led),
            c@.wf(),
    {
        Controller { hardware: Hardware::init(enable_led), phase: Phase::Configuring(0) }
    }

    /// The lines of this controller.
    pub fn hardware(&self) -> (hw: Hardware)
        ensures
            hw == self@.hardware,
            hw.wf(),
    {
        proof {
            use_type_invariant(self);
        }
        self.hardware
    }

    /// Where the controller stands.
    pub fn phase(&self) -> (phase: Phase)
        ensures
            phase == self@.phase,
            self@.wf(),
    {
        proof {
            use_type_invariant(self);
        }
        self.phase
    }

    /// How the run ended, once it is over.
    pub fn outcome(&self) -> (r: Option<Outcome>)
        ensures
            r == self@.outcome(),
    {
        match self.phase {
            Phase::Stopped(outcome) => Some(outcome),
            _ => None,
        }
    }

    /// The operation that the driver is to perform now.
    pub fn pending(&self) -> (action: Action)
        ensures
            action == self@.pending(),
    {
        proof {
            use_type_invariant(self);
        }
        match self.phase {
            Phase::Configuring(i) => {
                let ops = self.hardware.setup_steps();
                Action::Line(ops[i])
            },
            Phase::OpeningStreams => Action::OpenStreams,
            Phase::Connecting => Action::Connect,
            Phase::Announcing => Action::Announce,
            Phase::Subscribing => Action::Subscribe,
            Phase::Reading(_) => Action::Line(LineOp::Read(self.hardware.status.pin)),
            Phase::Publishing(status) => Action::PublishState(status),
            Phase::Idle => Action::Wait,
            Phase::Locking => Action::Lock,
            Phase::Pulsing(k) => {
                let steps = pulse_steps(&self.hardware);
                steps[k]
            },
            Phase::Unlocking(_) => Action::Unlock,
            Phase::Releasing(i, _) => {
                let ops = self.hardware.release_steps();
                Action::Line(ops[i])
            },
            Phase::Stopped(outcome) => Action::Exit(outcome),
        }
    }

    /// Takes the signal that answers the outstanding operation and says what
    /// is to be done next. A signal that does not answer it is refused with
    /// `None` and changes nothing.
    pub fn react(&mut self, signal: Signal) -> (r: Option<Reaction>)
        ensures
            r is Some <==> old(self)@.accepts(signal),
            r is Some ==> r == Some(old(self)@.reaction(signal)),
            final(self)@ == old(self)@.next(signal),
            final(self)@.wf(),
    {
        proof {
            use_type_invariant(&*self);
        }
        let step = self.decide(signal);
        match step {
            Some((phase, notice)) => {
                self.phase = phase;
                Some(Reaction { action: self.pending(), notice })
            },
            None => None,
        }
    }

    /// The phase that the signal leads to and what the operator is told.
    fn decide(&self, signal: Signal) -> (r: Option<(Phase, Notice)>)
        ensures
            r == self@.step(signal),
            self@.wf(),
            self@.next(signal).wf(),
    {
        proof {
            use_type_invariant(self);
        }
        match self.phase {
            Phase::Configuring(i) => match signal {
                Signal::Done(true) => {
                    let count = self.hardware.setup_steps().len();
                    if i < count - 1 {
                        Some((Phase::Configuring(i + 1), Notice::Silent))
                    } else {
                        Some((Phase::OpeningStreams, Notice::Silent))
                    }
                },
                Signal::Done(false) => Some(
                    (
                        Phase::Stopped(Outcome::Failed(Failure::LineSetup)),
                        Notice::Failed(Failure::LineSetup),
                    ),
                ),
                _ => None,
            },
            Phase::OpeningStreams => completed(signal, Phase::Connecting, Failure::StreamOpen),
            Phase::Connecting => completed(signal, Phase::Announcing, Failure::BusConnect),
            Phase::Announcing => completed(signal, Phase::Subscribing, Failure::Announce),
            Phase::Subscribing => completed(
                signal,
                Phase::Reading(Purpose::Initial),
                Failure::Subscribe,
            ),
            Phase::Reading(purpose) => match signal {
                Signal::Read(Some(raw)) => Some(judge(purpose, parse_door_status(raw))),
                Signal::Read(None) => Some(fail(Failure::StatusRead)),
                _ => None,
            },
            Phase::Publishing(_) => completed(signal, Phase::Idle, Failure::StatePublish),
            Phase::Idle => dispatch(signal),
            Phase::Locking => match signal {
                Signal::Done(true) => Some((Phase::Pulsing(0), Notice::PulseStarted)),
                Signal::Done(false) => Some(abort()),
                _ => None,
            },
            Phase::Pulsing(k) => match signal {
                Signal::Done(true) => {
                    let count = pulse_steps(&self.hardware).len();
                    if k < count - 1 {
                        Some((Phase::Pulsing(k + 1), Notice::Silent))
                    } else {
                        Some((Phase::Unlocking(Outcome::Success), Notice::Silent))
                    }
                },
                Signal::Done(false) => Some(abort()),
                _ => None,
            },
            Phase::Unlocking(outcome) => match signal {
                Signal::Done(released) => match outcome {
                    Outcome::Success => {
                        if released {
                            Some((Phase::Idle, Notice::Silent))
                        } else {
                            Some(fail(Failure::Relay))
                        }
                    },
                    Outcome::Failed(_) => Some((Phase::Releasing(0, outcome), Notice::Silent)),
                },
                _ => None,
            },
            Phase::Releasing(i, outcome) => match signal {
                Signal::Done(_) => {
                    let count = self.hardware.release_steps().len();
                    if i < count - 1 {
                        Some((Phase::Releasing(i + 1, outcome), Notice::Silent))
                    } else {
                        Some((Phase::Stopped(outcome), Notice::Silent))
                    }
                },
                _ => None,
            },
            Phase::Stopped(_) => None,
        }
    }
}

/// A failure after the lines have been set up.
fn fail(failure: Failure) -> (r: (Phase, Notice))
    ensures
        r == failing(failure),
{
    (Phase::Releasing(0, Outcome::Failed(failure)), Notice::Failed(failure))
}

/// A failure while the relay lock is asked for or held.
fn abort() -> (r: (Phase, Notice))
    ensures
        r == aborting(),
{
    (Phase::Unlocking(Outcome::Failed(Failure::Relay)), Notice::Failed(Failure::Relay))
}

/// The end of an operation that either leads to `then` or fails the run.
fn completed(signal: Signal, then: Phase, failure: Failure) -> (r: Option<(Phase, Notice)>)
    ensures
        r == finish(signal, then, failure),
{
    match signal {
        Signal::Done(true) => Some((then, Notice::Silent)),
        Signal::Done(false) => Some(fail(failure)),
        _ => None,
    }
}

/// What follows a successful read of the sensor.
fn judge(purpose: Purpose, status: Status) -> (r: (Phase, Notice))
    ensures
        r == after_read(purpose, status),
{
    match purpose {
        Purpose::Initial => (Phase::Publishing(status), Notice::InitialStatus(status)),
        Purpose::Refresh => (Phase::Publishing(status), Notice::Silent),
        Purpose::Judge(command) => {
            if command.applies_to(status) {
                (Phase::Locking, Notice::CommandAccepted(command, status))
            } else {
                (Phase::Idle, Notice::CommandIgnored(command, status))
            }
        },
    }
}

/// What follows the event that ended a wait on the sources.
fn dispatch(signal: Signal) -> (r: Option<(Phase, Notice)>)
    ensures
        r == on_event(signal),
{
    match signal {
        Signal::Tick => Some((Phase::Reading(Purpose::Refresh), Notice::Silent)),
        Signal::StatusEdge(Sample::Value(raw)) => {
            let status = parse_door_status(raw);
            Some((Phase::Publishing(status), Notice::StatusDetected(status)))
        },
        Signal::StatusEdge(Sample::Failed) => Some(fail(Failure::StatusEvents)),
        Signal::StatusEdge(Sample::Closed) => Some(
            (Phase::Releasing(0, Outcome::Success), Notice::StreamEnded),
        ),
        Signal::TriggerEdge(Sample::Value(raw)) => {
            if raw != 0 {
                Some((Phase::Locking, Notice::TriggerDetected))
            } else {
                Some((Phase::Idle, Notice::Silent))
            }
        },
        Signal::TriggerEdge(Sample::Failed) => Some(fail(Failure::TriggerEvents)),
        Signal::TriggerEdge(Sample::Closed) => Some(
            (Phase::Releasing(0, Outcome::Success), Notice::StreamEnded),
        ),
        Signal::Command(command) => Some((Phase::Reading(Purpose::Judge(command)), Notice::Silent)),
        Signal::InvalidPayload => Some((Phase::Idle, Notice::InvalidPayload)),
        Signal::ForeignTopic => Some((Phase::Idle, Notice::ForeignTopic)),
        Signal::BusOther => Some((Phase::Idle, Notice::Silent)),
        Signal::BusError => Some((Phase::Idle, Notice::BusError)),
        Signal::BusClosed => Some((Phase::Releasing(0, Outcome::Success), Notice::StreamEnded)),
        Signal::Shutdown => Some(
            (Phase::Releasing(0, Outcome::Success), Notice::ShutdownRequested),
        ),
        Signal::Read(_) => None,
        Signal::Done(_) => None,
    }
}

} // verus!
