use garage_door::door::{parse_door_status, Command, Status};

#[test]
fn zero_reads_as_open() {
    assert_eq!(parse_door_status(0), Status::Open);
}

#[test]
fn one_reads_as_closed() {
    assert_eq!(parse_door_status(1), Status::Closed);
}

#[test]
fn every_other_value_reads_as_closed() {
    for raw in 1..=u8::MAX {
        assert_eq!(parse_door_status(raw), Status::Closed);
    }
}

#[test]
fn status_tokens_are_lower_case() {
    assert_eq!(Status::Open.as_str(), "open");
    assert_eq!(Status::Closed.as_str(), "closed");
    assert_eq!(Status::Open.to_string(), "open");
    assert_eq!(Status::Closed.to_string(), "closed");
}

#[test]
fn status_payload_is_the_token_in_ascii() {
    assert_eq!(Status::Open.payload(), b"open".to_vec());
    assert_eq!(Status::Closed.payload(), b"closed".to_vec());
}

#[test]
fn command_tokens_are_upper_case() {
    assert_eq!(Command::Open.as_str(), "OPEN");
    assert_eq!(Command::Close.as_str(), "CLOSE");
    assert_eq!(Command::Open.to_string(), "OPEN");
    assert_eq!(Command::Close.to_string(), "CLOSE");
}

#[test]
fn exact_tokens_are_commands() {
    assert_eq!(Command::from_payload(b"OPEN"), Some(Command::Open));
    assert_eq!(Command::from_payload(b"CLOSE"), Some(Command::Close));
}

#[test]
fn command_tokens_read_back() {
    for command in [Command::Open, Command::Close] {
        assert_eq!(Command::from_payload(command.as_str().as_bytes()), Some(command));
    }
}

#[test]
fn other_case_is_no_command() {
    assert_eq!(Command::from_payload(b"open"), None);
    assert_eq!(Command::from_payload(b"close"), None);
    assert_eq!(Command::from_payload(b"Open"), None);
    assert_eq!(Command::from_payload(b"cLOSE"), None);
}

#[test]
fn padded_or_cut_tokens_are_no_commands() {
    assert_eq!(Command::from_payload(b""), None);
    assert_eq!(Command::from_payload(b"OPEN "), None);
    assert_eq!(Command::from_payload(b" OPEN"), None);
    assert_eq!(Command::from_payload(b"OPEN\n"), None);
    assert_eq!(Command::from_payload(b"OPE"), None);
    assert_eq!(Command::from_payload(b"CLOSED"), None);
    assert_eq!(Command::from_payload(b"CLOS"), None);
    assert_eq!(Command::from_payload(b"OPENCLOSE"), None);
    assert_eq!(Command::from_payload(b"STOP"), None);
}

#[test]
fn bytes_that_are_no_text_are_no_command() {
    assert_eq!(Command::from_payload(&[0xff, 0xfe, 0xfd, 0xfc]), None);
    assert_eq!(Command::from_payload(&[b'O', b'P', b'E', 0xce]), None);
    assert_eq!(Command::from_payload(&[0]), None);
}

#[test]
fn a_command_applies_only_to_the_other_position() {
    assert!(Command::Open.applies_to(Status::Closed));
    assert!(Command::Close.applies_to(Status::Open));
    assert!(!Command::Open.applies_to(Status::Open));
    assert!(!Command::Close.applies_to(Status::Closed));
}

#[test]
fn the_rule_holds_for_every_raw_value() {
    for raw in 0..=u8::MAX {
        let status = parse_door_status(raw);
        assert_eq!(Command::Open.applies_to(status), raw != 0);
        assert_eq!(Command::Close.applies_to(status), raw == 0);
    }
}
