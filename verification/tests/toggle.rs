use circles::errors::DirectoryError;
use circles::schema::Circle;
use circles::service::DirectoryService;
use circles::toggle::{toggle, toggle_plan, MembershipState, RoleAction, RoleSet};

fn circle(id: &str, name: &str) -> Circle {
    Circle {
        id: id.to_string(),
        name: name.to_string(),
        description: format!("The {} circle", name),
        image_url: String::new(),
        emoji: "\u{265f}\u{fe0f}".to_string(),
        created_on: 1_650_000_000_000,
        channel: "9000".to_string(),
        owner: "4242".to_string(),
        sub_channels: Vec::new(),
    }
}

#[test]
fn double_toggle_returns_to_not_member() {
    let c = circle("r1", "Chess Club");
    let mut roles = RoleSet::new();
    assert!(!roles.has_role("r1"));

    let first = toggle(&mut roles, &c, "77");
    assert!(roles.has_role("r1"));
    assert_eq!(first.new_state, MembershipState::Member);

    let second = toggle(&mut roles, &c, "77");
    assert!(!roles.has_role("r1"));
    assert_eq!(second.new_state, MembershipState::NotMember);

    assert_ne!(first.confirmation, second.confirmation);
    assert_eq!(
        first.confirmation,
        "You have joined the Chess Club circle. Thank you for using circles"
    );
    assert_eq!(
        second.confirmation,
        "You have left the Chess Club circle. Thank you for using circles"
    );
}

#[test]
fn join_plan_grants_and_welcomes() {
    let c = circle("r1", "Chess Club");
    let plan = toggle_plan(false, &c, "77");
    assert_eq!(plan.action, RoleAction::Grant);
    assert_eq!(plan.new_state, MembershipState::Member);
    assert_eq!(
        plan.welcome,
        Some("Welcome to the Chess Club circle <@77>!".to_string())
    );
}

#[test]
fn leave_plan_revokes_silently() {
    let c = circle("r1", "Chess Club");
    let plan = toggle_plan(true, &c, "77");
    assert_eq!(plan.action, RoleAction::Revoke);
    assert_eq!(plan.new_state, MembershipState::NotMember);
    assert_eq!(plan.welcome, None);
    assert_eq!(
        plan.confirmation,
        "You have left the Chess Club circle. Thank you for using circles"
    );
}

#[test]
fn grant_and_revoke_are_idempotent_on_the_set() {
    let mut roles = RoleSet::new();
    roles.grant("r1");
    roles.grant("r1");
    assert!(roles.has_role("r1"));
    roles.revoke("r1");
    assert!(!roles.has_role("r1"));
    roles.revoke("r1");
    assert!(!roles.has_role("r1"));
}

#[test]
fn button_join_toggles_membership() {
    let mut service = DirectoryService::new();
    service.create(Ok(circle("r1", "Chess Club"))).unwrap();
    let mut roles = RoleSet::new();

    let first = service.handle_button(&mut roles, "77", "circle/join/r1").unwrap();
    assert_eq!(first, "You have joined the Chess Club circle. Thank you for using circles");
    assert!(roles.has_role("r1"));

    let second = service.handle_button(&mut roles, "77", "circle/join/r1").unwrap();
    assert_eq!(second, "You have left the Chess Club circle. Thank you for using circles");
    assert!(!roles.has_role("r1"));
}

#[test]
fn button_unrecognized_action_changes_nothing() {
    let mut service = DirectoryService::new();
    service.create(Ok(circle("r1", "Chess Club"))).unwrap();
    let mut roles = RoleSet::new();
    let r = service.handle_button(&mut roles, "77", "circle/about/r1").unwrap();
    assert_eq!(r, "Unable to get action");
    assert!(!roles.has_role("r1"));
}

#[test]
fn button_bad_identifier_is_invalid_format() {
    let service = DirectoryService::new();
    let mut roles = RoleSet::new();
    let r = service.handle_button(&mut roles, "77", "badformat");
    assert_eq!(r, Err(DirectoryError::InvalidFormat));
}

#[test]
fn button_unknown_circle_is_not_found() {
    let service = DirectoryService::new();
    let mut roles = RoleSet::new();
    let r = service.handle_button(&mut roles, "77", "circle/join/r9");
    assert_eq!(r, Err(DirectoryError::NotFound));
}
