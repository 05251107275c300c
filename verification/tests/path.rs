use pam_modules::fallback::{user_file, user_file_if};
use pam_modules::path::{PathComponent, PushPathComponent};
use pam_modules::status::{ErrorKind, Status};

#[test]
fn guard_accepts_a_plain_name() {
    let component = PathComponent::new("alice").unwrap();
    assert_eq!(component.as_str(), "alice");
    assert!(component.is_valid());
}

#[test]
fn guard_rejects_traversal_and_separators() {
    for raw in ["../etc", "a/b", ".", "..", "", "/", "/etc/shadow", "a/", "./a", "a/.", "a//"] {
        assert!(PathComponent::new(raw).is_none());
    }
}

#[test]
fn guard_accepts_dots_inside_names() {
    for raw in ["...", ".a", "a.", "a..b", ".hidden", "..a", "a b", "zoë", "C:\\x"] {
        assert!(PathComponent::new(raw).is_some());
    }
}

#[test]
fn component_is_pushed_with_one_separator() {
    let mut path = String::from("/tmp/marks");
    path.push_component(PathComponent::new("alice").unwrap());
    assert_eq!(path, "/tmp/marks/alice");

    let mut path = String::from("/tmp/marks/");
    path.push_component(PathComponent::new("alice").unwrap());
    assert_eq!(path, "/tmp/marks/alice");

    let mut path = String::new();
    path.push_component(PathComponent::new("alice").unwrap());
    assert_eq!(path, "alice");

    let mut path = String::from("/");
    path.push_component(PathComponent::new("alice").unwrap());
    assert_eq!(path, "/alice");
}

#[test]
fn pushing_agrees_with_the_standard_library() {
    for dir in ["/tmp/marks", "/tmp/marks/", "", "/", "rel", "rel/"] {
        let mut path = String::from(dir);
        path.push_component(PathComponent::new("alice").unwrap());
        let mut expected = std::path::PathBuf::from(dir);
        expected.push("alice");
        assert_eq!(std::path::PathBuf::from(path), expected);
    }
}

#[test]
fn user_file_lies_in_the_store() {
    assert_eq!(
        user_file("/tmp/marks".to_string(), "alice".to_string()),
        Ok("/tmp/marks/alice".to_string())
    );
}

#[test]
fn user_file_refuses_names_that_are_no_component() {
    for raw in ["../etc", "a/b", ".", "..", "", "/etc/shadow", "alice/", "./alice"] {
        let failure = user_file("/tmp/marks".to_string(), raw.to_string()).unwrap_err();
        assert_eq!(failure.kind, ErrorKind::InvalidUsername);
        assert_eq!(failure.status(), Status::AuthError);
    }
}

#[test]
fn user_file_needs_both_guards() {
    assert_eq!(
        user_file_if("/tmp/marks".to_string(), "alice".to_string(), true),
        Ok("/tmp/marks/alice".to_string())
    );
    let failure = user_file_if("/tmp/marks".to_string(), "alice".to_string(), false);
    assert_eq!(failure.unwrap_err().kind, ErrorKind::InvalidUsername);
    let failure = user_file_if("/tmp/marks".to_string(), "./alice".to_string(), true);
    assert_eq!(failure.unwrap_err().kind, ErrorKind::InvalidUsername);
}
