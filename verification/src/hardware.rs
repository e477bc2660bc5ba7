//! The four GPIO lines of the controller, described as plain values: which
//! pin each one is, how it is configured, and in which order the lines are
//! set up and released. Nothing here touches a pin.

use vstd::prelude::*;

verus! {

/// Pin of the indicator LED.
pub const LED_PIN: u64 = 7;

/// Pin of the relay that closes the opener's contact.
pub const RELAY_PIN: u64 = 17;

/// Pin of the door-position sensor.
pub const STATUS_PIN: u64 = 6;

/// Pin of the manual trigger input.
pub const INPUT_PIN: u64 = 12;

/// Direction of a line. An output is configured together with its initial
/// level.
#[derive(Clone, Copy, Debug, PartialEq, Eq, Structural)]
pub enum Direction {
    In,
    Low,
    High,
}

/// Which transitions of an input line are reported as events.
#[derive(Clone, Copy, Debug, PartialEq, Eq, Structural)]
pub enum Edge {
    NoInterrupt,
    RisingEdge,
    FallingEdge,
    BothEdges,
}

/// One line: its pin and how it is to be configured.
#[derive(Clone, Copy, Debug, PartialEq, Eq, Structural)]
pub struct Line {
    pub pin: u64,
    pub direction: Direction,
    pub edge: Edge,
}

/// One operation on a line.
#[derive(Clone, Copy, Debug, PartialEq, Eq, Structural)]
pub enum LineOp {
    /// Make the pin available.
    Export(u64),
    /// Configure the direction of the pin.
    SetDirection(u64, Direction),
    /// Configure which edges of the pin are reported.
    SetEdge(u64, Edge),
    /// Read the current value of the pin.
    Read(u64),
    /// Drive the pin to the given value.
    Write(u64, u8),
    /// Give the pin back.
    Unexport(u64),
}

/// The lines of the controller. The indicator LED is optional.
#[derive(Clone, Copy, Debug, PartialEq, Eq, Structural)]
pub struct Hardware {
    pub led: Option<Line>,
    pub relay: Line,
    pub status: Line,
    pub input: Line,
}

/// The operations that bring one line up: export it, set its direction and,
/// for an input, choose the edges that it reports.
pub open spec fn line_setup(line: Line) -> Seq<LineOp> {
    if line.direction == Direction::In {
        seq![
            LineOp::Export(line.pin),
            LineOp::SetDirection(line.pin, line.direction),
            LineOp::SetEdge(line.pin, line.edge),
        ]
    } else {
        seq![LineOp::Export(line.pin), LineOp::SetDirection(line.pin, line.direction)]
    }
}

impl Line {
    /// An output line that starts low.
    pub open spec fn output(pin: u64) -> Line {
        Line { pin, direction: Direction::Low, edge: Edge::NoInterrupt }
    }

    /// An input line that reports the given edges.
    pub open spec fn input(pin: u64, edge: Edge) -> Line {
        Line { pin, direction: Direction::In, edge }
    }

    /// Appends the operations that bring this line up.
    fn push_setup(&self, ops: &mut Vec<LineOp>)
        ensures
            final(ops)@ == old(ops)@ + line_setup(*self),
    {
        ops.push(LineOp::Export(self.pin));
        ops.push(LineOp::SetDirection(self.pin, self.direction));
        match self.direction {
            Direction::In => {
                ops.push(LineOp::SetEdge(self.pin, self.edge));
            },
            _ => {},
        }
        assert(ops@ =~= old(ops)@ + line_setup(*self));
    }
}

impl Hardware {
    /// The lines of the controller, with or without the indicator LED: the
    /// LED and the relay are outputs that start low, the sensor reports both
    /// edges, the trigger input only rising ones.
    pub open spec fn layout(enable_led: bool) -> Hardware {
        Hardware {
            led: if enable_led {
                Some(Line::output(LED_PIN))
            } else {
                None
            },
            relay: Line::output(RELAY_PIN),
            status: Line::input(STATUS_PIN, Edge::BothEdges),
            input: Line::input(INPUT_PIN, Edge::RisingEdge),
        }
    }

    /// The operations that bring all lines up, in order: LED (if any), relay,
    /// sensor, trigger.
    pub open spec fn setup_plan(self) -> Seq<LineOp> {
        (match self.led {
            Some(led) => line_setup(led),
            None => Seq::empty(),
        }) + line_setup(self.relay) + line_setup(self.status) + line_setup(self.input)
    }

    /// The pins to give back when the controller ends, in order: LED (if
    /// any), relay, sensor, trigger.
    pub open spec fn release_plan(self) -> Seq<LineOp> {
        (match self.led {
            Some(led) => seq![LineOp::Unexport(led.pin)],
            None => Seq::empty(),
        }) + seq![
            LineOp::Unexport(self.relay.pin),
            LineOp::Unexport(self.status.pin),
            LineOp::Unexport(self.input.pin),
        ]
    }

    /// No two lines share a pin, the LED and the relay are outputs, the
    /// sensor and the trigger are inputs.
    pub open spec fn wf(self) -> bool {
        &&& self.relay.pin != self.status.pin
        &&& self.relay.pin != self.input.pin
        &&& self.status.pin != self.input.pin
        &&& self.relay.direction != Direction::In
        &&& self.status.direction == Direction::In
        &&& self.input.direction == Direction::In
        &&& self.led matches Some(led) ==> {
            &&& led.pin != self.relay.pin
            &&& led.pin != self.status.pin
            &&& led.pin != self.input.pin
            &&& led.direction != Direction::In
        }
    }

    /// Describes the lines of the controller. Bringing them up is left to
    /// the caller, who performs `setup_steps` in order.
    pub fn init(enable_led: bool) -> (hw: Hardware)
        ensures
            hw == Hardware::layout(enable_led),
            hw.wf(),
    {
        let led = if enable_led {
            Some(Line { pin: LED_PIN, direction: Direction::Low, edge: Edge::NoInterrupt })
        } else {
            None
        };
        Hardware {
            led,
            relay: Line { pin: RELAY_PIN, direction: Direction::Low, edge: Edge::NoInterrupt },
            status: Line { pin: STATUS_PIN, direction: Direction::In, edge: Edge::BothEdges },
            input: Line { pin: INPUT_PIN, direction: Direction::In, edge: Edge::RisingEdge },
        }
    }

    /// The operations that bring all lines up, in the order in which they are
    /// to be performed. The first one that fails ends the setup.
    pub fn setup_steps(&self) -> (ops: Vec<LineOp>)
        ensures
            ops@ == self.setup_plan(),
    {
        let mut ops: Vec<LineOp> = Vec::new();
        match self.led {
            Some(led) => {
                led.push_setup(&mut ops);
            },
            None => {},
        }
        self.relay.push_setup(&mut ops);
        self.status.push_setup(&mut ops);
        self.input.push_setup(&mut ops);
        assert(ops@ =~= self.setup_plan());
        ops
    }

    /// The operations that give all pins back, in the order in which they are
    /// to be performed. A failure of one does not stop the others.
    pub fn release_steps(&self) -> (ops: Vec<LineOp>)
        ensures
            ops@ == self.release_plan(),
    {
        let mut ops: Vec<LineOp> = Vec::new();
        match self.led {
            Some(led) => {
                ops.push(LineOp::Unexport(led.pin));
            },
            None => {},
        }
        ops.push(LineOp::Unexport(self.relay.pin));
        ops.push(LineOp::Unexport(self.status.pin));
        ops.push(LineOp::Unexport(self.input.pin));
        assert(ops@ =~= self.release_plan());
        ops
    }
}

} // verus!
