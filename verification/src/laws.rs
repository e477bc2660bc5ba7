//! What holds of every run of the controller: the relay is never energized
//! twice without a release in between, its lock guards every write of a
//! pulse and is given back on every path, bad input changes nothing, and
//! each plan is carried out in its order.

use vstd::prelude::*;
use crate::bus::message_signal;
use crate::controller::{Machine, Phase, Purpose};
use crate::door::{command_of, should_pulse, status_of, Command};
use crate::hardware::{Hardware, LineOp};
use crate::protocol::{Action, Failure, Notice, Outcome, Reaction, Sample, Signal};
use crate::relay::{deenergize, energize, pulse_plan, HOLD_MILLIS};

verus! {

/// The state after the given signals have arrived, one after the other.
pub open spec fn run(m: Machine, signals: Seq<Signal>) -> Machine
    decreases signals.len(),
{
    if signals.len() == 0 {
        m
    } else {
        run(m, signals.drop_last()).next(signals.last())
    }
}

/// The actions that the controller asks for while the given signals arrive,
/// in order. A signal that is refused asks for nothing.
pub open spec fn trace(m: Machine, signals: Seq<Signal>) -> Seq<Action>
    decreases signals.len(),
{
    if signals.len() == 0 {
        Seq::empty()
    } else {
        let before = run(m, signals.drop_last());
        if before.accepts(signals.last()) {
            trace(m, signals.drop_last()).push(before.next(signals.last()).pending())
        } else {
            trace(m, signals.drop_last())
        }
    }
}

/// Whether the action drives a line.
pub open spec fn is_write(action: Action) -> bool {
    action matches Action::Line(LineOp::Write(_, _))
}

/// How many times the relay has been energized without a release since:
/// the number of energize windows that are open after the given actions.
pub open spec fn open_windows(hw: Hardware, actions: Seq<Action>) -> int
    decreases actions.len(),
{
    if actions.len() == 0 {
        0
    } else if actions.last() == energize(hw) {
        open_windows(hw, actions.drop_last()) + 1
    } else if actions.last() == deenergize(hw) {
        open_windows(hw, actions.drop_last()) - 1
    } else {
        open_windows(hw, actions.drop_last())
    }
}

/// How many times the relay lock has been asked for without being given
/// back since.
pub open spec fn locks_held(actions: Seq<Action>) -> int
    decreases actions.len(),
{
    if actions.len() == 0 {
        0
    } else if actions.last() == Action::Lock {
        locks_held(actions.drop_last()) + 1
    } else if actions.last() == Action::Unlock {
        locks_held(actions.drop_last()) - 1
    } else {
        locks_held(actions.drop_last())
    }
}

/// Every write and every hold among the actions comes while the relay lock
/// is held.
pub open spec fn guarded(actions: Seq<Action>) -> bool
    decreases actions.len(),
{
    actions.len() == 0 || {
        &&& guarded(actions.drop_last())
        &&& is_write(actions.last()) || actions.last() is Hold ==> locks_held(
            actions.drop_last(),
        ) == 1
    }
}

impl Machine {
    /// No pulse is under way: the relay lock is neither asked for nor held.
    pub open spec fn at_rest(self) -> bool {
        !(self.phase is Locking) && !(self.phase is Pulsing)
    }

    /// The run is bound to end in failure: the lines are being released, or
    /// have been, after something went wrong.
    pub open spec fn doomed(self) -> bool {
        match self.phase {
            Phase::Unlocking(Outcome::Failed(_)) => true,
            Phase::Releasing(_, Outcome::Failed(_)) => true,
            Phase::Stopped(Outcome::Failed(_)) => true,
            _ => false,
        }
    }
}

/// The position of the energizing write in the pulse plan.
pub open spec fn energize_index(hw: Hardware) -> int {
    if hw.led is Some {
        1
    } else {
        0
    }
}

/// The shape of the pulse plan: three steps around the hold, framed by the
/// two writes of the LED where there is one, and none of the LED's writes is
/// a write of the relay.
pub proof fn lemma_pulse_plan_shape(hw: Hardware)
    requires
        hw.wf(),
    ensures
        pulse_plan(hw).len() == energize_index(hw) * 2 + 3,
        pulse_plan(hw)[energize_index(hw)] == energize(hw),
        pulse_plan(hw)[energize_index(hw) + 1] == Action::Hold(HOLD_MILLIS),
        pulse_plan(hw)[energize_index(hw) + 2] == deenergize(hw),
        hw.led matches Some(led) ==> {
            &&& pulse_plan(hw)[0] == Action::Line(LineOp::Write(led.pin, 1))
            &&& pulse_plan(hw)[4] == Action::Line(LineOp::Write(led.pin, 0))
            &&& led.pin != hw.relay.pin
        },
        forall|k: int|
            0 <= k < pulse_plan(hw).len() ==> is_write(#[trigger] pulse_plan(hw)[k])
                || pulse_plan(hw)[k] is Hold,
{
}

/// No step of setting the lines up or of giving them back drives a line.
pub proof fn lemma_plans_do_not_write(hw: Hardware)
    ensures
        forall|i: int|
            0 <= i < hw.setup_plan().len() ==> !(#[trigger] hw.setup_plan()[i] is Write),
        forall|i: int|
            0 <= i < hw.release_plan().len() ==> (#[trigger] hw.release_plan()[i] is Unexport),
        hw.release_plan().len() >= 3,
        hw.setup_plan().len() >= 2,
{
}

/// The controller stays well formed. Whatever signal arrives, accepted or
/// not, the lines stay the same and an index still points into its plan.
pub proof fn law_step_keeps_well_formed(m: Machine, signal: Signal)
    requires
        m.wf(),
    ensures
        m.next(signal).wf(),
        m.next(signal).hardware == m.hardware,
{
}

/// What ties a state to the actions that led to it: the lock is counted as
/// held exactly while a pulse is under way, the writes are guarded, and an
/// energize window is open only in the middle of a pulse or after a pulse
/// has failed.
pub open spec fn consistent(m: Machine, actions: Seq<Action>) -> bool {
    let windows = open_windows(m.hardware, actions);
    let first = energize_index(m.hardware);
    &&& guarded(actions)
    &&& locks_held(actions) == if m.at_rest() {
        0int
    } else {
        1int
    }
    &&& 0 <= windows <= 1
    &&& match m.phase {
        Phase::Pulsing(k) => windows == if first <= k <= first + 1 {
            1int
        } else {
            0int
        },
        _ => m.doomed() || windows == 0,
    }
}

/// One accepted signal keeps the state and the actions consistent.
pub proof fn lemma_step_keeps_consistent(m: Machine, actions: Seq<Action>, signal: Signal)
    requires
        m.wf(),
        consistent(m, actions),
        m.accepts(signal),
    ensures
        consistent(m.next(signal), actions.push(m.next(signal).pending())),
{
    let hw = m.hardware;
    let after = m.next(signal);
    let action = after.pending();
    let longer = actions.push(action);
    assert(longer.drop_last() =~= actions);
    assert(longer.last() == action);
    law_step_keeps_well_formed(m, signal);
    lemma_pulse_plan_shape(hw);
    lemma_plans_do_not_write(hw);
    match after.phase {
        Phase::Configuring(i) => {
            assert(!(hw.setup_plan()[i as int] is Write));
        },
        Phase::Releasing(i, _) => {
            assert(hw.release_plan()[i as int] is Unexport);
        },
        Phase::Pulsing(k) => {
            assert(is_write(pulse_plan(hw)[k as int]) || pulse_plan(hw)[k as int] is Hold);
        },
        _ => {},
    }
}

/// The state and the actions of any run that starts at rest are consistent.
pub proof fn lemma_run_is_consistent(m: Machine, signals: Seq<Signal>)
    requires
        m.wf(),
        m.at_rest(),
    ensures
        run(m, signals).wf(),
        run(m, signals).hardware == m.hardware,
        consistent(run(m, signals), trace(m, signals)),
    decreases signals.len(),
{
    if signals.len() > 0 {
        lemma_run_is_consistent(m, signals.drop_last());
        let before = run(m, signals.drop_last());
        law_step_keeps_well_formed(before, signals.last());
        if before.accepts(signals.last()) {
            lemma_step_keeps_consistent(before, trace(m, signals.drop_last()), signals.last());
        }
    }
}

/// Relay pulses never overlap. Whatever signals arrive after the controller
/// was at rest: the relay is never energized a second time before it has
/// been released, the relay lock is never asked for while it is held, and
/// every write and hold of a pulse comes while it is held. Whenever the
/// controller waits on its sources again, the relay has been released and
/// the lock given back; the lock has also been given back when the run is
/// over, however it ended, and the relay released when it ended well.
pub proof fn law_pulses_never_overlap(m: Machine, signals: Seq<Signal>)
    requires
        m.wf(),
        m.at_rest(),
    ensures
        0 <= open_windows(m.hardware, trace(m, signals)) <= 1,
        0 <= locks_held(trace(m, signals)) <= 1,
        guarded(trace(m, signals)),
        run(m, signals).phase == Phase::Idle ==> open_windows(m.hardware, trace(m, signals)) == 0
            && locks_held(trace(m, signals)) == 0,
        run(m, signals).phase is Stopped ==> locks_held(trace(m, signals)) == 0,
        run(m, signals).outcome() == Some(Outcome::Success) ==> open_windows(
            m.hardware,
            trace(m, signals),
        ) == 0,
{
    lemma_run_is_consistent(m, signals);
}

/// One more signal extends a run by one step.
pub proof fn lemma_run_push(m: Machine, signals: Seq<Signal>, signal: Signal)
    ensures
        run(m, signals.push(signal)) == run(m, signals).next(signal),
        trace(m, signals.push(signal)) == if run(m, signals).accepts(signal) {
            trace(m, signals).push(run(m, signals).next(signal).pending())
        } else {
            trace(m, signals)
        },
{
    assert(signals.push(signal).drop_last() =~= signals);
}

/// The command rule. When the sensor has been read for a command, the relay
/// lock is asked for, and with it a pulse begun, exactly if the command is
/// `Open` and the door closed or the command is `Close` and the door open.
/// In the four other cases the controller goes back to waiting, tells the
/// operator that the command was ignored, and asks for nothing else.
pub proof fn law_command_rule(m: Machine, command: Command, raw: u8)
    requires
        m.wf(),
        m.phase == Phase::Reading(Purpose::Judge(command)),
    ensures
        m.accepts(Signal::Read(Some(raw))),
        should_pulse(command, status_of(raw)) <==> (command == Command::Open && raw != 0) || (
        command == Command::Close && raw == 0),
        m.reaction(Signal::Read(Some(raw))).action == Action::Lock <==> should_pulse(
            command,
            status_of(raw),
        ),
        should_pulse(command, status_of(raw)) ==> {
            &&& m.next(Signal::Read(Some(raw))).phase == Phase::Locking
            &&& m.reaction(Signal::Read(Some(raw))).notice == Notice::CommandAccepted(
                command,
                status_of(raw),
            )
        },
        !should_pulse(command, status_of(raw)) ==> {
            &&& m.next(Signal::Read(Some(raw))).phase == Phase::Idle
            &&& m.reaction(Signal::Read(Some(raw))).action == Action::Wait
            &&& m.reaction(Signal::Read(Some(raw))).notice == Notice::CommandIgnored(
                command,
                status_of(raw),
            )
        },
{
}

/// A command is judged by the door as it is now: the controller answers a
/// command by reading the sensor line, whatever it has published before.
pub proof fn law_command_reads_sensor(m: Machine, command: Command)
    requires
        m.phase == Phase::Idle,
    ensures
        m.accepts(Signal::Command(command)),
        m.next(Signal::Command(command)).phase == Phase::Reading(Purpose::Judge(command)),
        m.reaction(Signal::Command(command)).action == Action::Line(
            LineOp::Read(m.hardware.status.pin),
        ),
{
}

/// Bad input is ignored. A message whose payload spells no command changes
/// nothing, on whichever topic and in whichever state it arrives: the
/// controller stays where it is, and where it was waiting on its sources it
/// tells the operator and goes on waiting.
pub proof fn law_bad_payload_is_ignored(
    m: Machine,
    command_topic: Seq<char>,
    topic: Seq<char>,
    payload: Seq<u8>,
)
    requires
        command_of(payload) is None,
    ensures
        m.next(message_signal(command_topic, topic, payload)) == m,
        m.phase == Phase::Idle ==> {
            &&& m.accepts(message_signal(command_topic, topic, payload))
            &&& m.reaction(message_signal(command_topic, topic, payload)).action == Action::Wait
            &&& m.reaction(message_signal(command_topic, topic, payload)).notice == if topic
                == command_topic {
                Notice::InvalidPayload
            } else {
                Notice::ForeignTopic
            }
        },
{
}

/// An edge of the sensor is published once. When the sensor reports an edge
/// while the controller waits, the door state that the raw value stands for
/// is published, and once that is done the controller waits again: one
/// publish, and nothing else.
pub proof fn law_edge_is_published_once(m: Machine, raw: u8)
    requires
        m.phase == Phase::Idle,
    ensures
        trace(m, seq![Signal::StatusEdge(Sample::Value(raw)), Signal::Done(true)]) == seq![
            Action::PublishState(status_of(raw)),
            Action::Wait,
        ],
        run(m, seq![Signal::StatusEdge(Sample::Value(raw)), Signal::Done(true)]).phase
            == Phase::Idle,
        m.reaction(Signal::StatusEdge(Sample::Value(raw))).notice == Notice::StatusDetected(
            status_of(raw),
        ),
{
    let edge = Signal::StatusEdge(Sample::Value(raw));
    let none = Seq::<Signal>::empty();
    lemma_run_push(m, none, edge);
    lemma_run_push(m, none.push(edge), Signal::Done(true));
    assert(none.push(edge).push(Signal::Done(true)) =~= seq![edge, Signal::Done(true)]);
    assert(trace(m, none.push(edge).push(Signal::Done(true))) =~= seq![
        Action::PublishState(status_of(raw)),
        Action::Wait,
    ]);
}

/// A tick of the timer re-reads the sensor and publishes what it says.
pub proof fn law_tick_republishes(m: Machine, raw: u8)
    requires
        m.phase == Phase::Idle,
    ensures
        trace(m, seq![Signal::Tick, Signal::Read(Some(raw)), Signal::Done(true)]) == seq![
            Action::Line(LineOp::Read(m.hardware.status.pin)),
            Action::PublishState(status_of(raw)),
            Action::Wait,
        ],
{
    let none = Seq::<Signal>::empty();
    let read = Signal::Read(Some(raw));
    lemma_run_push(m, none, Signal::Tick);
    lemma_run_push(m, none.push(Signal::Tick), read);
    lemma_run_push(m, none.push(Signal::Tick).push(read), Signal::Done(true));
    assert(none.push(Signal::Tick).push(read).push(Signal::Done(true)) =~= seq![
        Signal::Tick,
        read,
        Signal::Done(true),
    ]);
    assert(trace(m, none.push(Signal::Tick).push(read).push(Signal::Done(true))) =~= seq![
        Action::Line(LineOp::Read(m.hardware.status.pin)),
        Action::PublishState(status_of(raw)),
        Action::Wait,
    ]);
}

/// The given number of operations, each of which has succeeded.
pub open spec fn all_done(count: nat) -> Seq<Signal> {
    Seq::new(count, |i: int| Signal::Done(true))
}

/// The actions that perform the given operations on the lines.
pub open spec fn line_actions(ops: Seq<LineOp>) -> Seq<Action> {
    Seq::new(ops.len(), |i: int| Action::Line(ops[i]))
}

/// While the steps of a pulse succeed, they are asked for in the order of
/// the plan.
proof fn lemma_pulse_prefix(m: Machine, done: nat)
    requires
        m.wf(),
        m.phase == Phase::Locking,
        1 <= done <= pulse_plan(m.hardware).len(),
    ensures
        run(m, all_done(done)) == (Machine {
            hardware: m.hardware,
            phase: Phase::Pulsing((done - 1) as usize),
        }),
        trace(m, all_done(done)) == pulse_plan(m.hardware).take(done as int),
    decreases done,
{
    let plan = pulse_plan(m.hardware);
    lemma_pulse_plan_shape(m.hardware);
    let shorter = all_done((done - 1) as nat);
    assert(shorter.push(Signal::Done(true)) =~= all_done(done));
    lemma_run_push(m, shorter, Signal::Done(true));
    if done == 1 {
        assert(shorter =~= Seq::<Signal>::empty());
        assert(trace(m, all_done(done)) =~= plan.take(1));
    } else {
        lemma_pulse_prefix(m, (done - 1) as nat);
        assert(plan.take(done - 1).push(plan[done - 1]) =~= plan.take(done as int));
    }
}

/// A pulse follows its plan. Once the relay lock has been asked for and
/// every operation succeeds, the controller asks for the steps of the pulse
/// plan in their order (LED on where there is one, relay on, hold, relay
/// off, LED off where there is one), then gives the lock back, and only
/// then waits on its sources again.
pub proof fn law_pulse_follows_plan(m: Machine)
    requires
        m.wf(),
        m.phase == Phase::Locking,
    ensures
        trace(m, all_done(pulse_plan(m.hardware).len() + 2)) == pulse_plan(m.hardware).push(
            Action::Unlock,
        ).push(Action::Wait),
        run(m, all_done(pulse_plan(m.hardware).len() + 2)).phase == Phase::Idle,
{
    let plan = pulse_plan(m.hardware);
    let n = plan.len();
    lemma_pulse_plan_shape(m.hardware);
    lemma_pulse_prefix(m, n);
    assert(plan.take(n as int) =~= plan);
    assert(all_done(n).push(Signal::Done(true)) =~= all_done(n + 1));
    lemma_run_push(m, all_done(n), Signal::Done(true));
    assert(all_done(n + 1).push(Signal::Done(true)) =~= all_done(n + 2));
    lemma_run_push(m, all_done(n + 1), Signal::Done(true));
}

/// A failed step ends the pulse at once. Whichever step of a pulse fails,
/// and also where the lock itself could not be had, the next thing the
/// controller asks for is to give the relay lock back; no further step of
/// the pulse is asked for, the operator is told, and after the lock the
/// lines are released and the run ends in failure.
pub proof fn law_failed_step_ends_pulse(m: Machine, released: bool)
    requires
        m.wf(),
        m.phase is Pulsing || m.phase is Locking,
    ensures
        m.accepts(Signal::Done(false)),
        m.reaction(Signal::Done(false)) == (Reaction {
            action: Action::Unlock,
            notice: Notice::Failed(Failure::Relay),
        }),
        m.next(Signal::Done(false)).next(Signal::Done(released)).phase == Phase::Releasing(
            0,
            Outcome::Failed(Failure::Relay),
        ),
        m.next(Signal::Done(false)).next(Signal::Done(released)).pending() == Action::Line(
            LineOp::Unexport(match m.hardware.led {
                Some(led) => led.pin,
                None => m.hardware.relay.pin,
            }),
        ),
{
}

/// While the lines are being released, they are released in the order of
/// the plan, whether or not a release succeeds.
proof fn lemma_release_prefix(m: Machine, outcome: Outcome, answers: Seq<Signal>)
    requires
        m.wf(),
        m.phase == Phase::Releasing(0, outcome),
        answers.len() < m.hardware.release_plan().len(),
        forall|i: int| 0 <= i < answers.len() ==> #[trigger] answers[i] is Done,
    ensures
        run(m, answers) == (Machine {
            hardware: m.hardware,
            phase: Phase::Releasing(answers.len() as usize, outcome),
        }),
        trace(m, answers) == line_actions(m.hardware.release_plan()).subrange(
            1,
            answers.len() as int + 1,
        ),
    decreases answers.len(),
{
    let plan = line_actions(m.hardware.release_plan());
    lemma_plans_do_not_write(m.hardware);
    if answers.len() == 0 {
        assert(trace(m, answers) =~= plan.subrange(1, 1));
    } else {
        let shorter = answers.drop_last();
        lemma_release_prefix(m, outcome, shorter);
        assert(shorter.push(answers.last()) =~= answers);
        lemma_run_push(m, shorter, answers.last());
        assert(plan.subrange(1, answers.len() as int).push(plan[answers.len() as int])
            =~= plan.subrange(1, answers.len() as int + 1));
    }
}

/// Every line is released before the run ends. Once the controller has
/// begun to release the lines, it asks for each of them in turn (LED where
/// there is one, relay, sensor, trigger), whether or not a release
/// succeeds, and then ends the run with the outcome that was decided.
pub proof fn law_every_line_is_released(m: Machine, outcome: Outcome, answers: Seq<Signal>)
    requires
        m.wf(),
        m.phase == Phase::Releasing(0, outcome),
        answers.len() == m.hardware.release_plan().len(),
        forall|i: int| 0 <= i < answers.len() ==> #[trigger] answers[i] is Done,
    ensures
        m.pending() == Action::Line(m.hardware.release_plan()[0]),
        trace(m, answers) == line_actions(m.hardware.release_plan()).drop_first().push(
            Action::Exit(outcome),
        ),
        run(m, answers).phase == Phase::Stopped(outcome),
{
    let plan = line_actions(m.hardware.release_plan());
    let shorter = answers.drop_last();
    lemma_release_prefix(m, outcome, shorter);
    assert(shorter.push(answers.last()) =~= answers);
    lemma_run_push(m, shorter, answers.last());
    assert(plan.subrange(1, answers.len() as int) =~= plan.drop_first());
}

/// A shutdown request ends the run well. Whenever the operator asks the
/// waiting controller to stop, the very next thing it asks for is the
/// release of the first line, the operator is told, and the run is bound to
/// end in success.
pub proof fn law_shutdown_winds_down(m: Machine)
    requires
        m.wf(),
        m.phase == Phase::Idle,
    ensures
        m.accepts(Signal::Shutdown),
        m.next(Signal::Shutdown).phase == Phase::Releasing(0, Outcome::Success),
        m.next(Signal::Shutdown).wf(),
        m.reaction(Signal::Shutdown) == (Reaction {
            action: Action::Line(m.hardware.release_plan()[0]),
            notice: Notice::ShutdownRequested,
        }),
{
}

/// While the operations of the set-up succeed, they are asked for in the
/// order of the plan.
proof fn lemma_setup_prefix(m: Machine, done: nat)
    requires
        m.wf(),
        m.phase == Phase::Configuring(0),
        done < m.hardware.setup_plan().len(),
    ensures
        run(m, all_done(done)) == (Machine {
            hardware: m.hardware,
            phase: Phase::Configuring(done as usize),
        }),
        trace(m, all_done(done)) == line_actions(m.hardware.setup_plan()).subrange(
            1,
            done as int + 1,
        ),
    decreases done,
{
    let plan = line_actions(m.hardware.setup_plan());
    if done == 0 {
        assert(all_done(done) =~= Seq::<Signal>::empty());
        assert(trace(m, all_done(done)) =~= plan.subrange(1, 1));
    } else {
        let shorter = all_done((done - 1) as nat);
        lemma_setup_prefix(m, (done - 1) as nat);
        assert(shorter.push(Signal::Done(true)) =~= all_done(done));
        lemma_run_push(m, shorter, Signal::Done(true));
        assert(plan.subrange(1, done as int).push(plan[done as int]) =~= plan.subrange(
            1,
            done as int + 1,
        ));
    }
}

/// The lines are set up in the order of the plan. A run begins with the
/// first operation of the set-up plan; while each operation succeeds the
/// next one of the plan is asked for, and after the last one the change
/// streams are opened.
pub proof fn law_setup_follows_plan(enable_led: bool)
    ensures
        Machine::initial(enable_led).wf(),
        Machine::initial(enable_led).pending() == Action::Line(
            Hardware::layout(enable_led).setup_plan()[0],
        ),
        trace(
            Machine::initial(enable_led),
            all_done(Hardware::layout(enable_led).setup_plan().len()),
        ) == line_actions(Hardware::layout(enable_led).setup_plan()).drop_first().push(
            Action::OpenStreams,
        ),
        run(
            Machine::initial(enable_led),
            all_done(Hardware::layout(enable_led).setup_plan().len()),
        ).phase == Phase::OpeningStreams,
{
    let m = Machine::initial(enable_led);
    let plan = line_actions(m.hardware.setup_plan());
    let n = m.hardware.setup_plan().len();
    lemma_plans_do_not_write(m.hardware);
    lemma_setup_prefix(m, (n - 1) as nat);
    assert(all_done((n - 1) as nat).push(Signal::Done(true)) =~= all_done(n));
    lemma_run_push(m, all_done((n - 1) as nat), Signal::Done(true));
    assert(plan.subrange(1, n as int) =~= plan.drop_first());
}

/// A set-up operation that fails ends the run at once, in failure, and
/// nothing more is asked of the lines.
pub proof fn law_failed_setup_stops(m: Machine)
    requires
        m.phase is Configuring,
    ensures
        m.accepts(Signal::Done(false)),
        m.reaction(Signal::Done(false)) == (Reaction {
            action: Action::Exit(Outcome::Failed(Failure::LineSetup)),
            notice: Notice::Failed(Failure::LineSetup),
        }),
{
}

/// The order of the start-up. Once the lines are set up and every
/// operation succeeds, the controller opens the change streams, sets up the
/// bus client, publishes the discovery descriptor, subscribes to the
/// command topic, reads the sensor, publishes the door state once, and
/// then waits on its sources.
pub proof fn law_startup_order(m: Machine, raw: u8)
    requires
        m.phase == Phase::OpeningStreams,
    ensures
        m.pending() == Action::OpenStreams,
        trace(m, all_done(4).push(Signal::Read(Some(raw))).push(Signal::Done(true))) == seq![
            Action::Connect,
            Action::Announce,
            Action::Subscribe,
            Action::Line(LineOp::Read(m.hardware.status.pin)),
            Action::PublishState(status_of(raw)),
            Action::Wait,
        ],
        run(m, all_done(4).push(Signal::Read(Some(raw))).push(Signal::Done(true))).phase
            == Phase::Idle,
{
    let done = Signal::Done(true);
    let read = Signal::Read(Some(raw));
    let none = Seq::<Signal>::empty();
    assert(all_done(4) =~= none.push(done).push(done).push(done).push(done));
    lemma_run_push(m, none, done);
    lemma_run_push(m, none.push(done), done);
    lemma_run_push(m, none.push(done).push(done), done);
    lemma_run_push(m, none.push(done).push(done).push(done), done);
    lemma_run_push(m, all_done(4), read);
    lemma_run_push(m, all_done(4).push(read), done);
    assert(trace(m, all_done(4).push(read).push(done)) =~= seq![
        Action::Connect,
        Action::Announce,
        Action::Subscribe,
        Action::Line(LineOp::Read(m.hardware.status.pin)),
        Action::PublishState(status_of(raw)),
        Action::Wait,
    ]);
}

/// A trigger that reports a non-zero value begins a pulse; one that reports
/// zero is passed over in silence.
pub proof fn law_trigger_rule(m: Machine, raw: u8)
    requires
        m.phase == Phase::Idle,
    ensures
        m.accepts(Signal::TriggerEdge(Sample::Value(raw))),
        m.reaction(Signal::TriggerEdge(Sample::Value(raw))) == if raw != 0 {
            Reaction { action: Action::Lock, notice: Notice::TriggerDetected }
        } else {
            Reaction { action: Action::Wait, notice: Notice::Silent }
        },
{
}

/// A pulse is not interrupted. From the moment the relay lock is asked for
/// until it has been given back, the controller takes nothing but the
/// completion of the operation it asked for: no tick, edge, message or
/// shutdown request is accepted, so a second request for a pulse is taken
/// up only after the first pulse has run its full course. And the lock is
/// only ever asked for in answer to a trigger or to a read made for a
/// command.
pub proof fn law_pulse_is_not_interrupted(m: Machine, signal: Signal)
    requires
        m.accepts(signal),
    ensures
        m.phase is Locking || m.phase is Pulsing || m.phase is Unlocking ==> signal is Done,
        m.next(signal).phase is Locking ==> {
            ||| m.phase == Phase::Idle && signal is TriggerEdge
            ||| m.phase is Reading && signal is Read
        },
        m.next(signal).phase == Phase::Idle && m.phase is Unlocking ==> m.phase
            == Phase::Unlocking(Outcome::Success),
{
}

} // verus!
