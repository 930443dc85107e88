use action_scan::policy::evaluate_pinning;
use action_scan::policy::evaluate_trust;
use action_scan::policy::is_trusted_owner;
use action_scan::policy::FailReason;
use action_scan::policy::PinningVerdict;
use action_scan::policy::PolicyConfig;
use action_scan::policy::TrustVerdict;
use action_scan::policy::WarnReason;
use action_scan::refparse::ActionRef;

const SHA: &str = "0123456789abcdef0123456789abcdef01234567";

fn config_with(critical: &[&str], trusted: &[&str]) -> PolicyConfig {
    PolicyConfig {
        critical_dependencies: critical.iter().map(|s| s.to_string()).collect(),
        trusted_owners: trusted.iter().map(|s| s.to_string()).collect(),
    }
}

#[test]
fn container_reference_passes_pinning() {
    let config = config_with(&["docker://alpine:3.18"], &[]);
    let v = evaluate_pinning(&"docker://alpine:3.18".to_string(), &config, true);
    assert_eq!(v, PinningVerdict::Pass);
}

#[test]
fn unpinned_critical_fails() {
    let config = config_with(&["actions/checkout"], &[]);
    let v = evaluate_pinning(&"actions/checkout".to_string(), &config, false);
    assert_eq!(v, PinningVerdict::Fail(FailReason::UnpinnedCritical));
}

#[test]
fn critical_main_suffix_fails() {
    let config = config_with(&["actions/checkout@main"], &[]);
    let v = evaluate_pinning(&"actions/checkout@main".to_string(), &config, false);
    assert_eq!(v, PinningVerdict::Fail(FailReason::UnstableCritical));
}

#[test]
fn critical_master_suffix_fails() {
    let config = config_with(&["a/b@master"], &[]);
    let v = evaluate_pinning(&"a/b@master".to_string(), &config, false);
    assert_eq!(v, PinningVerdict::Fail(FailReason::UnstableCritical));
}

#[test]
fn critical_latest_suffix_fails() {
    let config = config_with(&["a/b@latest"], &[]);
    let v = evaluate_pinning(&"a/b@latest".to_string(), &config, false);
    assert_eq!(v, PinningVerdict::Fail(FailReason::UnstableCritical));
}

#[test]
fn critical_tag_pin_warns_only() {
    let config = config_with(&["actions/checkout@v4"], &[]);
    let v = evaluate_pinning(&"actions/checkout@v4".to_string(), &config, false);
    assert_eq!(v, PinningVerdict::Warn(WarnReason::CriticalTagPin));
}

#[test]
fn critical_commit_pin_passes() {
    let raw = format!("actions/checkout@{}", SHA);
    let config = config_with(&[&raw], &[]);
    let v = evaluate_pinning(&raw, &config, false);
    assert_eq!(v, PinningVerdict::Pass);
}

#[test]
fn non_critical_passes_without_strict() {
    let config = config_with(&[], &[]);
    let v = evaluate_pinning(&"actions/checkout@main".to_string(), &config, false);
    assert_eq!(v, PinningVerdict::Pass);
}

#[test]
fn strict_unpinned_fails() {
    let config = config_with(&[], &[]);
    let v = evaluate_pinning(&"actions/checkout".to_string(), &config, true);
    assert_eq!(v, PinningVerdict::Fail(FailReason::UnpinnedStrict));
}

#[test]
fn strict_unstable_suffix_fails() {
    let config = config_with(&[], &[]);
    let v = evaluate_pinning(&"actions/checkout@latest".to_string(), &config, true);
    assert_eq!(v, PinningVerdict::Fail(FailReason::UnstableStrict));
}

#[test]
fn strict_tag_pin_passes_without_warning() {
    let config = config_with(&[], &[]);
    let v = evaluate_pinning(&"actions/checkout@v4".to_string(), &config, true);
    assert_eq!(v, PinningVerdict::Pass);
}

#[test]
fn unstable_alias_must_be_suffix_not_substring() {
    let config = config_with(&["a/b@mainline"], &[]);
    let v = evaluate_pinning(&"a/b@mainline".to_string(), &config, false);
    assert_eq!(v, PinningVerdict::Warn(WarnReason::CriticalTagPin));
}

#[test]
fn trusted_owner_membership_is_exact() {
    let config = config_with(&[], &["actions"]);
    assert!(is_trusted_owner("actions", &config));
    assert!(!is_trusted_owner("Actions", &config));
    assert!(!is_trusted_owner("actions2", &config));
}

#[test]
fn trusted_owner_verdict() {
    let config = config_with(&[], &["actions"]);
    let r = ActionRef::from_action_string("actions/checkout@v4").unwrap();
    assert_eq!(evaluate_trust(&r, &config), TrustVerdict::Trusted);
}

#[test]
fn untrusted_mutable_verdict() {
    let config = config_with(&[], &[]);
    let r = ActionRef::from_action_string("actions/checkout@v4").unwrap();
    assert_eq!(evaluate_trust(&r, &config), TrustVerdict::UntrustedAndMutable);
}

#[test]
fn untrusted_immutable_verdict() {
    let config = config_with(&[], &[]);
    let raw = format!("someone/tool@{}", SHA);
    let r = ActionRef::from_action_string(&raw).unwrap();
    assert_eq!(evaluate_trust(&r, &config), TrustVerdict::UntrustedButImmutable);
}

#[test]
fn permissive_default_config_is_empty() {
    let config = PolicyConfig::permissive();
    assert!(config.critical_dependencies.is_empty());
    assert!(config.trusted_owners.is_empty());
    let v = evaluate_pinning(&"anyone/anything@main".to_string(), &config, false);
    assert_eq!(v, PinningVerdict::Pass);
}
