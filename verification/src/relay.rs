//! The relay pulse: the fixed sequence of steps that closes the opener's
//! contact for a moment.

use vstd::prelude::*;
use crate::hardware::{Hardware, LineOp};
use crate::protocol::Action;

verus! {

/// Milliseconds for which the relay is held energized. The opener needs its
/// contact closed for this long, so the value is fixed.
pub const HOLD_MILLIS: u64 = 200;

/// The write that switches the indicator LED, if there is one.
pub open spec fn led_write(hw: Hardware, value: u8) -> Seq<Action> {
    match hw.led {
        Some(led) => seq![Action::Line(LineOp::Write(led.pin, value))],
        None => Seq::empty(),
    }
}

/// The action that energizes the relay.
pub open spec fn energize(hw: Hardware) -> Action {
    Action::Line(LineOp::Write(hw.relay.pin, 1))
}

/// The action that de-energizes the relay.
pub open spec fn deenergize(hw: Hardware) -> Action {
    Action::Line(LineOp::Write(hw.relay.pin, 0))
}

/// The steps of one pulse, in order: LED on (if there is one), relay on,
/// hold, relay off, LED off (if there is one).
pub open spec fn pulse_plan(hw: Hardware) -> Seq<Action> {
    led_write(hw, 1) + seq![energize(hw), Action::Hold(HOLD_MILLIS), deenergize(hw)] + led_write(
        hw,
        0,
    )
}

/// The steps of one pulse, in the order in which they are to be performed
/// while the relay lock is held. The first one that fails ends the pulse.
pub fn pulse_steps(hw: &Hardware) -> (steps: Vec<Action>)
    ensures
        steps@ == pulse_plan(*hw),
{
    let mut steps: Vec<Action> = Vec::new();
    match hw.led {
        Some(led) => {
            steps.push(Action::Line(LineOp::Write(led.pin, 1)));
        },
        None => {},
    }
    steps.push(Action::Line(LineOp::Write(hw.relay.pin, 1)));
    steps.push(Action::Hold(HOLD_MILLIS));
    steps.push(Action::Line(LineOp::Write(hw.relay.pin, 0)));
    match hw.led {
        Some(led) => {
            steps.push(Action::Line(LineOp::Write(led.pin, 0)));
        },
        None => {},
    }
    assert(steps@ =~= pulse_plan(*hw));
    steps
}

} // verus!
