use garage_door::bus::{Qos, Topics};
use garage_door::descriptor::{announcement, encoded, AnnounceError, Descriptor};

fn broken_json() -> serde_json::Error {
    match serde_json::from_str::<serde_json::Value>("{") {
        Ok(_) => panic!("an open brace alone is no JSON"),
        Err(error) => error,
    }
}

fn member<'a>(object: &'a serde_json::Value, key: &str) -> &'a str {
    object.get(key).and_then(|value| value.as_str()).expect("a string member")
}

#[test]
fn descriptor_names_the_door() {
    let d = Descriptor::new(&Topics::new("homeassistant/cover/garage"));
    assert_eq!(d.name, "Garage");
    assert_eq!(d.unique_id, "garage_door");
    assert_eq!(d.command_topic, "homeassistant/cover/garage/command");
    assert_eq!(d.payload_close, "CLOSE");
    assert_eq!(d.payload_open, "OPEN");
    assert_eq!(d.state_topic, "homeassistant/cover/garage/state");
    assert_eq!(d.state_open, "open");
    assert_eq!(d.state_closed, "closed");
    assert_eq!(d.device_class, "garage");
}

#[test]
fn descriptor_keys_are_the_fixed_nine() {
    assert_eq!(
        Descriptor::keys(),
        vec![
            "name",
            "unique_id",
            "command_topic",
            "payload_close",
            "payload_open",
            "state_topic",
            "state_open",
            "state_closed",
            "device_class",
        ]
    );
}

#[test]
fn descriptor_values_follow_the_keys() {
    let d = Descriptor::new(&Topics::new("door"));
    assert_eq!(
        d.to_values(),
        vec![
            "Garage",
            "garage_door",
            "door/command",
            "CLOSE",
            "OPEN",
            "door/state",
            "open",
            "closed",
            "garage",
        ]
    );
}

#[test]
fn encoded_descriptor_is_a_json_object_with_nine_members() {
    let bytes = Descriptor::new(&Topics::new("homeassistant/cover/garage"))
        .encode()
        .expect("the descriptor encodes");
    let value: serde_json::Value = serde_json::from_slice(&bytes).expect("valid JSON");
    let object = value.as_object().expect("an object");
    assert_eq!(object.len(), 9);
    assert_eq!(member(&value, "name"), "Garage");
    assert_eq!(member(&value, "unique_id"), "garage_door");
    assert_eq!(member(&value, "command_topic"), "homeassistant/cover/garage/command");
    assert_eq!(member(&value, "payload_close"), "CLOSE");
    assert_eq!(member(&value, "payload_open"), "OPEN");
    assert_eq!(member(&value, "state_topic"), "homeassistant/cover/garage/state");
    assert_eq!(member(&value, "state_open"), "open");
    assert_eq!(member(&value, "state_closed"), "closed");
    assert_eq!(member(&value, "device_class"), "garage");
}

#[test]
fn encoded_descriptor_escapes_what_json_escapes() {
    let bytes = Descriptor::new(&Topics::new("a\"b")).encode().expect("the descriptor encodes");
    let value: serde_json::Value = serde_json::from_slice(&bytes).expect("valid JSON");
    assert_eq!(member(&value, "command_topic"), "a\"b/command");
    assert_eq!(member(&value, "state_topic"), "a\"b/state");
}

#[test]
fn encoder_bytes_are_passed_on() {
    assert_eq!(encoded(Ok(vec![b'{', b'}'])), Ok(vec![b'{', b'}']));
    assert_eq!(encoded(Ok(Vec::new())), Ok(Vec::new()));
}

#[test]
fn encoder_error_becomes_an_announce_error() {
    assert_eq!(encoded(Err(broken_json())), Err(AnnounceError::Encoding));
}

#[test]
fn announcement_goes_to_the_config_topic_unretained() {
    let topics = Topics::new("homeassistant/cover/garage");
    let message = announcement(&topics).expect("the descriptor encodes");
    assert_eq!(message.topic, "homeassistant/cover/garage/config");
    assert_eq!(message.qos, Qos::AtLeastOnce);
    assert!(!message.retain);
    assert_eq!(
        message.payload,
        Descriptor::new(&topics).encode().expect("the descriptor encodes")
    );
    let value: serde_json::Value = serde_json::from_slice(&message.payload).expect("valid JSON");
    assert_eq!(member(&value, "device_class"), "garage");
}

#[test]
fn encoded_descriptor_has_the_encoders_text() {
    let descriptor = Descriptor::new(&Topics::new("door"));
    let mut object = serde_json::Map::new();
    for (key, value) in Descriptor::keys().into_iter().zip(descriptor.to_values()) {
        object.insert(key, serde_json::Value::String(value));
    }
    let expected = serde_json::to_vec(&serde_json::Value::Object(object)).expect("it encodes");
    assert_eq!(descriptor.encode(), Ok(expected));
}

#[test]
fn encoding_twice_gives_the_same_bytes() {
    let descriptor = Descriptor::new(&Topics::new("door"));
    assert_eq!(descriptor.encode(), descriptor.encode());
    let text = String::from_utf8(descriptor.encode().expect("it encodes")).expect("text");
    assert!(text.starts_with('{') && text.ends_with('}'));
    assert!(text.contains("\"payload_open\":\"OPEN\""));
    assert!(text.contains("\"state_closed\":\"closed\""));
}
