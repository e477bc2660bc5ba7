//! The door as the sensor sees it, the commands that can be sent to it, and
//! the rule that decides which commands are acted on.

use vstd::prelude::*;
use vstd::string::*;
use vstd::utf8::*;

verus! {

/// Position of the door, as reported by the sensor line.
#[derive(Clone, Copy, Debug, PartialEq, Eq, Structural)]
pub enum Status {
    Open,
    Closed,
}

/// A request to move the door, as received on the command topic.
#[derive(Clone, Copy, Debug, PartialEq, Eq, Structural)]
pub enum Command {
    Open,
    Close,
}

/// What a raw value of the sensor line means. The sensor is wired normally
/// closed: the value 0 reads as an open door, every other value as a closed
/// one.
pub open spec fn status_of(raw: u8) -> Status {
    if raw == 0 {
        Status::Open
    } else {
        Status::Closed
    }
}

/// The bytes that carry an ASCII text on the wire: one byte per character.
pub open spec fn ascii_bytes(text: Seq<char>) -> Seq<u8> {
    Seq::new(text.len(), |i: int| text[i] as u8)
}

/// The command that a payload of the command topic spells: the payload, read
/// as UTF-8 text, has to be exactly one of the two upper-case tokens.
pub open spec fn command_of(payload: Seq<u8>) -> Option<Command> {
    if valid_utf8(payload) && decode_utf8(payload) == Command::Open.token() {
        Some(Command::Open)
    } else if valid_utf8(payload) && decode_utf8(payload) == Command::Close.token() {
        Some(Command::Close)
    } else {
        None
    }
}

/// The relay moves the door whichever way it stands, so a command is acted on
/// only when it asks for the position the door is not in.
pub open spec fn should_pulse(command: Command, status: Status) -> bool {
    ||| command == Command::Open && status == Status::Closed
    ||| command == Command::Close && status == Status::Open
}

/// Maps a raw value of the sensor line to the position of the door.
pub fn parse_door_status(status: u8) -> (r: Status)
    ensures
        r == status_of(status),
        r == Status::Closed <==> status != 0,
        r == Status::Open <==> status == 0,
{
    match status {
        0 => Status::Open,
        _ => Status::Closed,
    }
}

impl Status {
    /// The lower-case token that stands for this position on the state topic.
    pub open spec fn token(self) -> Seq<char> {
        match self {
            Status::Open => "open"@,
            Status::Closed => "closed"@,
        }
    }

    /// The token of this position as text.
    pub fn as_str(&self) -> (s: &'static str)
        ensures
            s@ == self.token(),
    {
        match self {
            Status::Open => "open",
            Status::Closed => "closed",
        }
    }

    /// The token of this position as an owned string.
    pub fn to_string(&self) -> (s: String)
        ensures
            s@ == self.token(),
    {
        String::from_str(self.as_str())
    }

    /// The payload that announces this position on the state topic.
    pub fn payload(&self) -> (bytes: Vec<u8>)
        ensures
            bytes@ == ascii_bytes(self.token()),
            bytes@ == encode_utf8(self.token()),
    {
        proof {
            lemma_tokens_are_ascii();
            is_ascii_chars_encode_utf8(self.token());
        }
        let bytes = self.as_str().as_bytes_vec();
        assert(bytes@ =~= ascii_bytes(self.token()));
        bytes
    }
}

impl Command {
    /// The upper-case token that spells this command on the command topic.
    pub open spec fn token(self) -> Seq<char> {
        match self {
            Command::Open => "OPEN"@,
            Command::Close => "CLOSE"@,
        }
    }

    /// The token of this command as text.
    pub fn as_str(&self) -> (s: &'static str)
        ensures
            s@ == self.token(),
    {
        match self {
            Command::Open => "OPEN",
            Command::Close => "CLOSE",
        }
    }

    /// The token of this command as an owned string.
    pub fn to_string(&self) -> (s: String)
        ensures
            s@ == self.token(),
    {
        String::from_str(self.as_str())
    }

    /// Reads a payload of the command topic. Anything but the exact bytes of
    /// one of the two tokens is no command.
    pub fn from_payload(payload: &[u8]) -> (r: Option<Command>)
        ensures
            r == command_of(payload@),
            r == Some(Command::Open) <==> payload@ == ascii_bytes(Command::Open.token()),
            r == Some(Command::Close) <==> payload@ == ascii_bytes(Command::Close.token()),
    {
        proof {
            lemma_command_of_bytes(payload@);
        }
        if same_bytes(payload, Command::Open.as_str().as_bytes()) {
            Some(Command::Open)
        } else if same_bytes(payload, Command::Close.as_str().as_bytes()) {
            Some(Command::Close)
        } else {
            None
        }
    }

    /// Whether this command is to be acted on while the door is in the given
    /// position.
    pub fn applies_to(&self, status: Status) -> (r: bool)
        ensures
            r == should_pulse(*self, status),
    {
        match (self, status) {
            (Command::Open, Status::Closed) => true,
            (Command::Close, Status::Open) => true,
            _ => false,
        }
    }
}

/// Whether two byte strings hold the same bytes.
fn same_bytes(a: &[u8], b: &[u8]) -> (r: bool)
    ensures
        r == (a@ == b@),
{
    if a.len() != b.len() {
        return false;
    }
    let mut i: usize = 0;
    while i < a.len()
        invariant
            a.len() == b.len(),
            i <= a.len(),
            forall|j: int| 0 <= j < i ==> a@[j] == b@[j],
        decreases a.len() - i,
    {
        if a[i] != b[i] {
            return false;
        }
        i += 1;
    }
    assert(a@ =~= b@);
    true
}

/// All four tokens are made of ASCII letters, and no two of them are equal.
pub proof fn lemma_tokens_are_ascii()
    ensures
        is_ascii_chars(Status::Open.token()),
        is_ascii_chars(Status::Closed.token()),
        is_ascii_chars(Command::Open.token()),
        is_ascii_chars(Command::Close.token()),
        Status::Open.token() != Status::Closed.token(),
        Command::Open.token() != Command::Close.token(),
{
    reveal_strlit("open");
    reveal_strlit("closed");
    reveal_strlit("OPEN");
    reveal_strlit("CLOSE");
}

/// A payload spells a command exactly when it holds the bytes of that
/// command's token, one byte per letter.
pub proof fn lemma_command_of_bytes(payload: Seq<u8>)
    ensures
        command_of(payload) == Some(Command::Open) <==> payload == ascii_bytes(
            Command::Open.token(),
        ),
        command_of(payload) == Some(Command::Close) <==> payload == ascii_bytes(
            Command::Close.token(),
        ),
        ascii_bytes(Command::Open.token()) == encode_utf8(Command::Open.token()),
        ascii_bytes(Command::Close.token()) == encode_utf8(Command::Close.token()),
{
    let open = Command::Open.token();
    let close = Command::Close.token();
    lemma_tokens_are_ascii();
    is_ascii_chars_encode_utf8(open);
    is_ascii_chars_encode_utf8(close);
    assert(ascii_bytes(open) =~= encode_utf8(open));
    assert(ascii_bytes(close) =~= encode_utf8(close));
    encode_utf8_valid_utf8(open);
    encode_utf8_valid_utf8(close);
    encode_utf8_decode_utf8(open);
    encode_utf8_decode_utf8(close);
    if valid_utf8(payload) {
        decode_utf8_encode_utf8(payload);
    }
}

/// The tokens read back. The payload that spells a command, one byte per
/// letter of its token, is read as that command; so what the discovery
/// descriptor advertises as the payload of a command is accepted as one.
pub proof fn law_tokens_read_back(command: Command)
    ensures
        command_of(ascii_bytes(command.token())) == Some(command),
        command_of(encode_utf8(command.token())) == Some(command),
{
    lemma_tokens_are_ascii();
    lemma_command_of_bytes(ascii_bytes(command.token()));
}

/// The sensor is read by a fixed table, not by a threshold: the raw value 0
/// is the only one that stands for an open door.
pub proof fn law_only_zero_is_open(raw: u8)
    ensures
        status_of(raw) == Status::Open <==> raw == 0,
        status_of(raw) == Status::Closed <==> raw != 0,
{
}

} // verus!
