use circles::payload::EncodeData;

fn payload(name: &str, circle: &str, emoji: &str, channel: &str) -> EncodeData {
    EncodeData {
        name: name.to_string(),
        circle: circle.to_string(),
        reactions: vec![(emoji.to_string(), circle.to_string())],
        channel: channel.to_string(),
    }
}

#[test]
fn encode_plain_payload_exactly() {
    let out = payload("a", "b", "e", "1").encode();
    assert_eq!(
        out,
        "[\u{200B}](http://fake.fake?data=%7B%22name%22%3A%22a%22%2C%22circle%22%3A%22b%22\
         %2C%22reactions%22%3A%7B%22e%22%3A%22b%22%7D%2C%22channel%22%3A%221%22%7D)"
    );
}

#[test]
fn encode_matches_reference_percent_encoding() {
    let out = payload("Chess Club", "r1", "\u{265f}\u{fe0f}", "9000").encode();
    let json = "{\"name\":\"Chess Club\",\"circle\":\"r1\",\"reactions\":{\"\u{265f}\u{fe0f}\":\"r1\"},\"channel\":\"9000\"}";
    let expected = format!("[\u{200B}](http://fake.fake?data={})", urlencoding::encode(json));
    assert_eq!(out, expected);
}

#[test]
fn encode_escapes_json_specials() {
    let out = payload("a\"b\\c", "r1", "e", "7").encode();
    let json = "{\"name\":\"a\\\"b\\\\c\",\"circle\":\"r1\",\"reactions\":{\"e\":\"r1\"},\"channel\":\"7\"}";
    let expected = format!("[\u{200B}](http://fake.fake?data={})", urlencoding::encode(json));
    assert_eq!(out, expected);
}

#[test]
fn encode_escapes_control_characters() {
    let out = payload("a\nb\u{1}", "r1", "e", "7").encode();
    let json = "{\"name\":\"a\\nb\\u0001\",\"circle\":\"r1\",\"reactions\":{\"e\":\"r1\"},\"channel\":\"7\"}";
    let expected = format!("[\u{200B}](http://fake.fake?data={})", urlencoding::encode(json));
    assert_eq!(out, expected);
}

#[test]
fn encode_empty_reaction_map() {
    let out = EncodeData {
        name: "a".to_string(),
        circle: "b".to_string(),
        reactions: Vec::new(),
        channel: "1".to_string(),
    }
    .encode();
    assert_eq!(
        out,
        "[\u{200B}](http://fake.fake?data=%7B%22name%22%3A%22a%22%2C%22circle%22%3A%22b%22\
         %2C%22reactions%22%3A%7B%7D%2C%22channel%22%3A%221%22%7D)"
    );
}
