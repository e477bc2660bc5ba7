//! The discovery descriptor: the message that tells an automation hub which
//! topics and payloads this door answers to.

use vstd::prelude::*;
use vstd::string::*;
use crate::bus::{Publication, Qos, Topics};
use crate::door::{Command, Status};

verus! {

/// `serde_json::Error`, the error of the JSON encoder. It is carried through
/// as it is; nothing is known of what it holds.
#[verifier::external_type_specification]
#[verifier::external_body]
pub struct ExJsonError(serde_json::Error);

/// What `serde_json::to_vec` returns for the JSON object whose members are
/// the given keys, each with the string value at the same position: the text
/// of the object, or `None` where the encoder refuses it.
pub uninterp spec fn json_object_text(keys: Seq<Seq<char>>, values: Seq<Seq<char>>) -> Option<
    Seq<u8>,
>;

/// Why the descriptor could not be announced.
#[derive(Clone, Copy, Debug, PartialEq, Eq, Structural)]
pub enum AnnounceError {
    /// The encoder refused the descriptor.
    Encoding,
}

/// The members of the discovery descriptor.
#[derive(Debug)]
pub struct Descriptor {
    pub name: String,
    pub unique_id: String,
    pub command_topic: String,
    pub payload_close: String,
    pub payload_open: String,
    pub state_topic: String,
    pub state_open: String,
    pub state_closed: String,
    pub device_class: String,
}

/// The keys of the descriptor, in the order in which its members are listed.
pub open spec fn descriptor_keys() -> Seq<Seq<char>> {
    seq![
        "name"@,
        "unique_id"@,
        "command_topic"@,
        "payload_close"@,
        "payload_open"@,
        "state_topic"@,
        "state_open"@,
        "state_closed"@,
        "device_class"@,
    ]
}

/// The values of the descriptor of a door with the given command and state
/// topics, in the order of `descriptor_keys`.
pub open spec fn descriptor_values(command_topic: Seq<char>, state_topic: Seq<char>) -> Seq<
    Seq<char>,
> {
    seq![
        "Garage"@,
        "garage_door"@,
        command_topic,
        Command::Close.token(),
        Command::Open.token(),
        state_topic,
        Status::Open.token(),
        Status::Closed.token(),
        "garage"@,
    ]
}

impl Descriptor {
    /// The values of the members, in the order of `descriptor_keys`.
    pub open spec fn values(self) -> Seq<Seq<char>> {
        seq![
            self.name@,
            self.unique_id@,
            self.command_topic@,
            self.payload_close@,
            self.payload_open@,
            self.state_topic@,
            self.state_open@,
            self.state_closed@,
            self.device_class@,
        ]
    }

    /// The descriptor of the door that uses the given topics: a garage-door
    /// cover that takes the two command tokens and reports the two state
    /// tokens.
    pub fn new(topics: &Topics) -> (d: Descriptor)
        ensures
            d.values() == descriptor_values(topics.command@, topics.state@),
    {
        Descriptor {
            name: String::from_str("Garage"),
            unique_id: String::from_str("garage_door"),
            command_topic: topics.command.clone(),
            payload_close: Command::Close.to_string(),
            payload_open: Command::Open.to_string(),
            state_topic: topics.state.clone(),
            state_open: Status::Open.to_string(),
            state_closed: Status::Closed.to_string(),
            device_class: String::from_str("garage"),
        }
    }

    /// The keys of the members, in the order in which they are listed.
    pub fn keys() -> (keys: Vec<String>)
        ensures
            keys.deep_view() == descriptor_keys(),
    {
        let mut keys: Vec<String> = Vec::new();
        keys.push(String::from_str("name"));
        keys.push(String::from_str("unique_id"));
        keys.push(String::from_str("command_topic"));
        keys.push(String::from_str("payload_close"));
        keys.push(String::from_str("payload_open"));
        keys.push(String::from_str("state_topic"));
        keys.push(String::from_str("state_open"));
        keys.push(String::from_str("state_closed"));
        keys.push(String::from_str("device_class"));
        assert(keys.deep_view() =~= descriptor_keys());
        keys
    }

    /// The values of the members, in the order of the keys.
    pub fn to_values(&self) -> (values: Vec<String>)
        ensures
            values.deep_view() == self.values(),
    {
        let mut values: Vec<String> = Vec::new();
        values.push(self.name.clone());
        values.push(self.unique_id.clone());
        values.push(self.command_topic.clone());
        values.push(self.payload_close.clone());
        values.push(self.payload_open.clone());
        values.push(self.state_topic.clone());
        values.push(self.state_open.clone());
        values.push(self.state_closed.clone());
        values.push(self.device_class.clone());
        assert(values.deep_view() =~= self.values());
        values
    }

    /// Encodes the descriptor as a JSON object with one string member for
    /// each key. The result is the encoder's: its text for that object where
    /// it gives one, and `AnnounceError::Encoding` where it refuses.
    pub fn encode(&self) -> (r: Result<Vec<u8>, AnnounceError>)
        ensures
            match json_object_text(descriptor_keys(), self.values()) {
                Some(text) => r matches Ok(bytes) && bytes@ == text,
                None => r == Err::<Vec<u8>, AnnounceError>(AnnounceError::Encoding),
            },
    {
        let keys = Descriptor::keys();
        let values = self.to_values();
        encoded(encode_object(&keys, &values))
    }
}

/// Calls `serde_json::to_vec` on the JSON object that holds, for each key,
/// the string value at the same position. The encoder writes into memory and
/// looks at nothing but the object, so what it returns depends on the keys
/// and values alone: that result is `json_object_text`. Nothing is claimed
/// about which objects it accepts.
#[verifier::external_body]
fn encode_object(keys: &Vec<String>, values: &Vec<String>) -> (r: Result<
    Vec<u8>,
    serde_json::Error,
>)
    ensures
        match r {
            Ok(bytes) => json_object_text(keys.deep_view(), values.deep_view()) == Some(bytes@),
            Err(_) => json_object_text(keys.deep_view(), values.deep_view()) is None,
        },
{
    let mut object = serde_json::Map::new();
    for (key, value) in keys.iter().zip(values.iter()) {
        object.insert(key.clone(), serde_json::Value::String(value.clone()));
    }
    serde_json::to_vec(&serde_json::Value::Object(object))
}

/// What the encoder's answer means: its bytes are passed on, its error
/// becomes `AnnounceError::Encoding`.
pub fn encoded(result: Result<Vec<u8>, serde_json::Error>) -> (r: Result<Vec<u8>, AnnounceError>)
    ensures
        match result {
            Ok(bytes) => r == Ok::<Vec<u8>, AnnounceError>(bytes),
            Err(_) => r == Err::<Vec<u8>, AnnounceError>(AnnounceError::Encoding),
        },
{
    match result {
        Ok(bytes) => Ok(bytes),
        Err(_) => Err(AnnounceError::Encoding),
    }
}

/// The message that announces the door with the given topics: its encoded
/// descriptor on the config topic, delivered at least once, not retained.
/// There is a message exactly where the encoder gives a text for the
/// descriptor.
pub fn announcement(topics: &Topics) -> (r: Result<Publication, AnnounceError>)
    ensures
        match json_object_text(
            descriptor_keys(),
            descriptor_values(topics.command@, topics.state@),
        ) {
            Some(text) => {
                &&& r matches Ok(message)
                &&& message.topic@ == topics.config@
                &&& message.qos == Qos::AtLeastOnce
                &&& !message.retain
                &&& message.payload@ == text
            },
            None => r matches Err(error) && error == AnnounceError::Encoding,
        },
{
    match Descriptor::new(topics).encode() {
        Ok(bytes) => Ok(topics.config_message(bytes)),
        Err(error) => Err(error),
    }
}

} // verus!
