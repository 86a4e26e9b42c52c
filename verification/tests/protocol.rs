use circles::errors::DirectoryError;
use circles::protocol::{decode, encode, is_url, Action};

#[test]
fn encode_join() {
    let s = encode(&Action::Join, "r1");
    assert_eq!(s, "circle/join/r1");
}

#[test]
fn encode_other_action() {
    let s = encode(&Action::Unrecognized("about".to_string()), "852");
    assert_eq!(s, "circle/about/852");
}

#[test]
fn round_trip_join() {
    let encoded = encode(&Action::Join, "r1");
    let (action, id) = decode(&encoded).unwrap();
    assert_eq!(action, Action::Join);
    assert_eq!(id, "r1");
}

#[test]
fn round_trip_other_action() {
    let encoded = encode(&Action::Unrecognized("about".to_string()), "general");
    let (action, id) = decode(&encoded).unwrap();
    assert_eq!(action, Action::Unrecognized("about".to_string()));
    assert_eq!(id, "general");
}

#[test]
fn decode_scenarios() {
    let (action, id) = decode("circle/join/r1").unwrap();
    assert_eq!(action, Action::Join);
    assert_eq!(id, "r1");
    assert_eq!(decode("badformat"), Err(DirectoryError::InvalidFormat));
}

#[test]
fn decode_rejects_missing_segments() {
    assert_eq!(decode("circle/join/"), Err(DirectoryError::InvalidFormat));
    assert_eq!(decode("circle/join"), Err(DirectoryError::InvalidFormat));
    assert_eq!(decode("circle/"), Err(DirectoryError::InvalidFormat));
    assert_eq!(decode(""), Err(DirectoryError::InvalidFormat));
}

#[test]
fn decode_rejects_wrong_prefix() {
    assert_eq!(decode("circus/join/r1"), Err(DirectoryError::InvalidFormat));
    assert_eq!(decode("xcircle/join/r1"), Err(DirectoryError::InvalidFormat));
    assert_eq!(decode("report/abc/def"), Err(DirectoryError::InvalidFormat));
}

#[test]
fn decode_rejects_extra_separator() {
    assert_eq!(decode("circle/join/r1/r2"), Err(DirectoryError::InvalidFormat));
}

#[test]
fn decode_empty_action() {
    let (action, id) = decode("circle//r1").unwrap();
    assert_eq!(action, Action::Unrecognized(String::new()));
    assert_eq!(id, "r1");
}

#[test]
fn action_text() {
    assert_eq!(Action::Join.text_str(), "join");
    assert_eq!(Action::Unrecognized("about".to_string()).text_str(), "about");
}

#[test]
fn url_check() {
    assert!(is_url("http://example.test/a.png"));
    assert!(is_url("https://example.test/a.png"));
    assert!(!is_url("example.test/a.png"));
    assert!(!is_url(""));
    assert!(!is_url("ftp://example.test"));
}
