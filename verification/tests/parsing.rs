use action_scan::refparse::ActionRef;

const SHA: &str = "0123456789abcdef0123456789abcdef01234567";

#[test]
fn parses_owner_repo_version() {
    let r = ActionRef::from_action_string("actions/checkout@v4").unwrap();
    assert_eq!(r.owner, "actions");
    assert_eq!(r.repo, "checkout");
    assert_eq!(r.version, "v4");
    assert!(!r.is_commit_sha);
}

#[test]
fn commit_pin_is_immutable() {
    let raw = format!("actions/checkout@{}", SHA);
    let r = ActionRef::from_action_string(&raw).unwrap();
    assert!(r.is_commit_sha);
    assert_eq!(r.version, SHA);
}

#[test]
fn tag_pin_is_not_immutable() {
    let r = ActionRef::from_action_string("actions/checkout@v4").unwrap();
    assert!(!r.is_commit_sha);
}

#[test]
fn uppercase_hex_is_not_immutable() {
    let raw = "actions/checkout@0123456789ABCDEF0123456789abcdef01234567";
    let r = ActionRef::from_action_string(raw).unwrap();
    assert!(!r.is_commit_sha);
}

#[test]
fn short_hex_is_not_immutable() {
    let r = ActionRef::from_action_string("actions/checkout@abcdef0").unwrap();
    assert!(!r.is_commit_sha);
}

#[test]
fn container_reference_not_applicable() {
    assert!(ActionRef::from_action_string("docker://alpine:3.18").is_none());
}

#[test]
fn missing_at_not_applicable() {
    assert!(ActionRef::from_action_string("actions/checkout").is_none());
}

#[test]
fn two_ats_not_applicable() {
    assert!(ActionRef::from_action_string("actions/checkout@v4@v5").is_none());
}

#[test]
fn missing_slash_not_applicable() {
    assert!(ActionRef::from_action_string("checkout@v4").is_none());
}

#[test]
fn two_slashes_not_applicable() {
    assert!(ActionRef::from_action_string("a/b/c@v4").is_none());
}

#[test]
fn empty_string_not_applicable() {
    assert!(ActionRef::from_action_string("").is_none());
}

#[test]
fn segments_taken_verbatim() {
    let r = ActionRef::from_action_string("Actions/Check-Out@V4.1").unwrap();
    assert_eq!(r.owner, "Actions");
    assert_eq!(r.repo, "Check-Out");
    assert_eq!(r.version, "V4.1");
}

#[test]
fn full_name_joins_owner_and_repo() {
    let r = ActionRef::from_action_string("actions/checkout@v4").unwrap();
    assert_eq!(r.full_name(), "actions/checkout");
}
