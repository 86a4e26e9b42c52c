use circles::errors::DirectoryError;
use circles::ping;
use circles::response::{ResponseFormat, ResponseType, ResponseUtil};
use circles::schema::{coper_increment, Circle, Coper, Member, Preferences, Response, ResponsesType};
use circles::settings::{Activity, Channels, Divisions, Express, Firestore, Keys, Points, Roles};
use circles::validate::{build_circle, test_emoji, validate_emoji};

#[test]
fn error_texts() {
    assert_eq!(DirectoryError::NotFound.text(), "Unable to get circle");
    assert_eq!(DirectoryError::InvalidFormat.text(), "Unable to get matches");
    assert_eq!(DirectoryError::ValidationFailure.text(), "Invalid emoji");
    assert_eq!(DirectoryError::UpstreamFailure.text(), "Upstream request failed");
}

#[test]
fn member_record_round_trip() {
    let m = Member {
        id: "77".to_string(),
        strikes: 2,
        last_strike: 1_650_000_000_000,
        preferences: Preferences { subscribed: true },
    };
    assert_eq!(m.clone(), m);
    let r = Response {
        type_field: "strike".to_string(),
        message: "Please behave".to_string(),
    };
    assert_eq!(r.clone(), r);
}

#[test]
fn settings_pieces_hold_plain_values() {
    let activity = Activity {
        type_field: "watching".to_string(),
        description: "the circles".to_string(),
    };
    assert_eq!(activity.description, "the circles");
    let firestore = Firestore {
        project_id: "p".to_string(),
        key_filename: "k.json".to_string(),
    };
    assert_eq!(firestore.project_id, "p");
    let express = Express { port: 8080 };
    assert_eq!(express.port, 8080);
    let keys = Keys { sheets: "s".to_string() };
    assert_eq!(keys.sheets, "s");
    let points = Points {
        private_channel: "1".to_string(),
        public_channel: "2".to_string(),
        staff_role: "3".to_string(),
        firebase_root: "r".to_string(),
    };
    assert_eq!(points.firebase_root, "r");
    let channels = Channels {
        verification: "1".to_string(),
        error: "2".to_string(),
        shoutout: "3".to_string(),
        roles: "4".to_string(),
        mod_field: "5".to_string(),
    };
    assert_eq!(channels.mod_field, "5");
    let roles = Roles {
        member: "m".to_string(),
        staff: "s".to_string(),
        director: "d".to_string(),
        mute: "q".to_string(),
        divisions: Divisions {
            projects: "p".to_string(),
            education: "e".to_string(),
            hackutd: "h".to_string(),
        },
    };
    assert_eq!(roles.divisions.education, "e");
}

#[test]
fn ping_reply() {
    assert_eq!(ping::run(), "\u{1f916} boop! \u{1f916}");
}

#[test]
fn response_dressing() {
    let util = ResponseUtil::new(ResponseFormat::Embed(ResponseType::Normal));
    assert_eq!(util.build("done", Some(ResponseType::Error)), "Error | done");
    assert_eq!(util.build("done", Some(ResponseType::Invalid)), "Invalid | done");
    assert_eq!(util.build("done", None), " | done");
}

#[test]
fn response_colors() {
    assert_eq!(ResponseType::Error.get_data().color, 0x992d22);
    assert_eq!(ResponseType::Invalid.get_data().color, 0xe74c3c);
    assert_eq!(ResponseType::Warning.get_data().color, 0xf1c40f);
    assert_eq!(ResponseType::Normal.get_data().color, 0x607d8b);
    assert_eq!(ResponseType::Success.get_data().color, 0x1f8b4c);
    assert_eq!(ResponseType::Success.get_data().simple, "\u{2705}");
}

#[test]
fn responses_type_names() {
    assert_eq!(ResponsesType::Strike.text(), "strike");
    assert_eq!(ResponsesType::Kick.text(), "kick");
    assert_eq!(ResponsesType::Ban.text(), "ban");
    assert_eq!(ResponsesType::Mute.text(), "mute");
    assert_eq!(ResponsesType::Caretaker.text(), "caretaker");
}

#[test]
fn coper_increment_existing() {
    let prev = Coper { id: "77".to_string(), score: 4 };
    let next = coper_increment(Some(prev), "77");
    assert_eq!(next, Coper { id: "77".to_string(), score: 5 });
}

#[test]
fn coper_increment_fresh() {
    let next = coper_increment(None, "78");
    assert_eq!(next, Coper { id: "78".to_string(), score: 1 });
}

#[test]
fn build_circle_assembles_record() {
    let c = build_circle(
        "Chess Club",
        "Board games",
        "\u{265f}\u{fe0f}",
        "https://example.test/a.png",
        "4242",
        "9000",
        "r1",
        1_650_000_000_000,
    )
    .unwrap();
    let expected = Circle {
        id: "r1".to_string(),
        name: "Chess Club".to_string(),
        description: "Board games".to_string(),
        image_url: "https://example.test/a.png".to_string(),
        emoji: "\u{265f}\u{fe0f}".to_string(),
        created_on: 1_650_000_000_000,
        channel: "9000".to_string(),
        owner: "4242".to_string(),
        sub_channels: Vec::new(),
    };
    assert_eq!(c, expected);
    assert_eq!(c.role_name(), "\u{265f}\u{fe0f} Chess Club");
}

#[test]
fn build_circle_rejects_plain_emoji() {
    let r = build_circle("Chess Club", "d", "x", "", "4242", "9000", "r1", 0);
    assert_eq!(r, Err(DirectoryError::ValidationFailure));
}

#[test]
fn emoji_validation() {
    assert!(test_emoji("\u{265f}\u{fe0f}"));
    assert!(test_emoji("\u{1f600}"));
    assert!(!test_emoji("x"));
    assert!(!test_emoji(""));
    assert_eq!(validate_emoji("\u{1f3af}"), Ok(()));
    assert_eq!(validate_emoji("plain text"), Err(DirectoryError::ValidationFailure));
}
