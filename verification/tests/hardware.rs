use garage_door::hardware::{
    Direction, Edge, Hardware, Line, LineOp, INPUT_PIN, LED_PIN, RELAY_PIN, STATUS_PIN,
};
use garage_door::protocol::Action;
use garage_door::relay::{pulse_steps, HOLD_MILLIS};

#[test]
fn pins_are_the_wired_ones() {
    assert_eq!(LED_PIN, 7);
    assert_eq!(RELAY_PIN, 17);
    assert_eq!(STATUS_PIN, 6);
    assert_eq!(INPUT_PIN, 12);
}

#[test]
fn init_without_led_describes_three_lines() {
    let hw = Hardware::init(false);
    assert_eq!(hw.led, None);
    assert_eq!(
        hw.relay,
        Line { pin: 17, direction: Direction::Low, edge: Edge::NoInterrupt }
    );
    assert_eq!(
        hw.status,
        Line { pin: 6, direction: Direction::In, edge: Edge::BothEdges }
    );
    assert_eq!(
        hw.input,
        Line { pin: 12, direction: Direction::In, edge: Edge::RisingEdge }
    );
}

#[test]
fn init_with_led_adds_the_led_line() {
    let hw = Hardware::init(true);
    assert_eq!(
        hw.led,
        Some(Line { pin: 7, direction: Direction::Low, edge: Edge::NoInterrupt })
    );
    assert_eq!(hw.relay, Hardware::init(false).relay);
    assert_eq!(hw.status, Hardware::init(false).status);
    assert_eq!(hw.input, Hardware::init(false).input);
}

#[test]
fn setup_without_led_is_relay_sensor_trigger() {
    assert_eq!(
        Hardware::init(false).setup_steps(),
        vec![
            LineOp::Export(17),
            LineOp::SetDirection(17, Direction::Low),
            LineOp::Export(6),
            LineOp::SetDirection(6, Direction::In),
            LineOp::SetEdge(6, Edge::BothEdges),
            LineOp::Export(12),
            LineOp::SetDirection(12, Direction::In),
            LineOp::SetEdge(12, Edge::RisingEdge),
        ]
    );
}

#[test]
fn setup_with_led_begins_with_the_led() {
    assert_eq!(
        Hardware::init(true).setup_steps(),
        vec![
            LineOp::Export(7),
            LineOp::SetDirection(7, Direction::Low),
            LineOp::Export(17),
            LineOp::SetDirection(17, Direction::Low),
            LineOp::Export(6),
            LineOp::SetDirection(6, Direction::In),
            LineOp::SetEdge(6, Edge::BothEdges),
            LineOp::Export(12),
            LineOp::SetDirection(12, Direction::In),
            LineOp::SetEdge(12, Edge::RisingEdge),
        ]
    );
}

#[test]
fn release_gives_every_pin_back() {
    assert_eq!(
        Hardware::init(false).release_steps(),
        vec![LineOp::Unexport(17), LineOp::Unexport(6), LineOp::Unexport(12)]
    );
    assert_eq!(
        Hardware::init(true).release_steps(),
        vec![
            LineOp::Unexport(7),
            LineOp::Unexport(17),
            LineOp::Unexport(6),
            LineOp::Unexport(12),
        ]
    );
}

#[test]
fn hold_is_two_hundred_milliseconds() {
    assert_eq!(HOLD_MILLIS, 200);
}

#[test]
fn pulse_without_led_is_on_hold_off() {
    assert_eq!(
        pulse_steps(&Hardware::init(false)),
        vec![
            Action::Line(LineOp::Write(17, 1)),
            Action::Hold(200),
            Action::Line(LineOp::Write(17, 0)),
        ]
    );
}

#[test]
fn pulse_with_led_is_framed_by_the_led() {
    assert_eq!(
        pulse_steps(&Hardware::init(true)),
        vec![
            Action::Line(LineOp::Write(7, 1)),
            Action::Line(LineOp::Write(17, 1)),
            Action::Hold(200),
            Action::Line(LineOp::Write(17, 0)),
            Action::Line(LineOp::Write(7, 0)),
        ]
    );
}
