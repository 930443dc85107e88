use action_scan::advisory::AdvisoryRecord;
use action_scan::advisory::LookupError;
use action_scan::policy::PinningVerdict;
use action_scan::policy::PolicyConfig;
use action_scan::policy::TrustVerdict;
use action_scan::scan::ScanReport;
use action_scan::strset::insert_unique;

fn advisory(id: &str) -> AdvisoryRecord {
    AdvisoryRecord {
        id: id.to_string(),
        number: 7,
        title: "title".to_string(),
        state: "open".to_string(),
        severity: None,
        labels: vec![],
    }
}

#[test]
fn untrusted_tag_lands_in_insecure_set() {
    let raw = "actions/checkout@v4".to_string();
    let config = PolicyConfig::permissive();
    let mut report = ScanReport::new();
    let (verdict, parsed) = report.record_policy(&raw, &config, false);
    assert_eq!(verdict, PinningVerdict::Pass);
    let (_, trust) = parsed.expect("reference parses");
    assert_eq!(trust, TrustVerdict::UntrustedAndMutable);
    report.record_lookup(&raw, &Ok(vec![]));
    assert_eq!(report.insecurely_pinned_actions, vec![raw]);
    assert!(report.vulnerable_actions.is_empty());
    assert!(report.scan_failed());
}

#[test]
fn strict_mode_flags_same_reference_once() {
    let raw = "actions/checkout@v4".to_string();
    let config = PolicyConfig::permissive();
    let mut report = ScanReport::new();
    let (verdict, parsed) = report.record_policy(&raw, &config, true);
    assert_eq!(verdict, PinningVerdict::Pass);
    let (_, trust) = parsed.expect("reference parses");
    assert_eq!(trust, TrustVerdict::UntrustedAndMutable);
    report.record_lookup(&raw, &Ok(vec![]));
    assert_eq!(report.insecurely_pinned_actions.len(), 1);
    assert!(report.scan_failed());
}

#[test]
fn container_reference_stays_out_of_both_sets() {
    let raw = "docker://alpine:3.18".to_string();
    let config = PolicyConfig::permissive();
    let mut report = ScanReport::new();
    let (verdict, parsed) = report.record_policy(&raw, &config, true);
    assert_eq!(verdict, PinningVerdict::Pass);
    assert!(parsed.is_none());
    assert!(report.insecurely_pinned_actions.is_empty());
    assert!(report.vulnerable_actions.is_empty());
    assert!(!report.scan_failed());
}

#[test]
fn advisories_land_in_vulnerable_set() {
    let raw = "someone/tool@v1".to_string();
    let config = PolicyConfig {
        critical_dependencies: vec![],
        trusted_owners: vec!["someone".to_string()],
    };
    let mut report = ScanReport::new();
    let (_, parsed) = report.record_policy(&raw, &config, false);
    let (_, trust) = parsed.expect("reference parses");
    assert_eq!(trust, TrustVerdict::Trusted);
    report.record_lookup(&raw, &Ok(vec![advisory("GHSA-1")]));
    assert_eq!(report.vulnerable_actions, vec![raw]);
    assert!(report.insecurely_pinned_actions.is_empty());
    assert!(report.scan_failed());
}

#[test]
fn lookup_error_is_not_a_scan_failure() {
    let raw = "someone/tool@v1".to_string();
    let config = PolicyConfig {
        critical_dependencies: vec![],
        trusted_owners: vec!["someone".to_string()],
    };
    let mut report = ScanReport::new();
    let _ = report.record_policy(&raw, &config, false);
    report.record_lookup(&raw, &Err(LookupError::Transport));
    assert!(report.vulnerable_actions.is_empty());
    assert!(!report.scan_failed());
}

#[test]
fn malformed_reference_is_skipped_but_pinning_still_applies() {
    let raw = "not-a-reference".to_string();
    let config = PolicyConfig::permissive();
    let mut report = ScanReport::new();
    let (verdict, parsed) = report.record_policy(&raw, &config, true);
    assert!(matches!(verdict, PinningVerdict::Fail(_)));
    assert!(parsed.is_none());
    assert_eq!(report.insecurely_pinned_actions, vec![raw]);
    assert!(report.scan_failed());
}

#[test]
fn same_reference_can_appear_in_both_sets() {
    let raw = "someone/tool@main".to_string();
    let config = PolicyConfig {
        critical_dependencies: vec![raw.clone()],
        trusted_owners: vec![],
    };
    let mut report = ScanReport::new();
    let (verdict, parsed) = report.record_policy(&raw, &config, false);
    assert!(matches!(verdict, PinningVerdict::Fail(_)));
    assert!(parsed.is_some());
    report.record_lookup(&raw, &Ok(vec![advisory("GHSA-2")]));
    assert_eq!(report.insecurely_pinned_actions, vec![raw.clone()]);
    assert_eq!(report.vulnerable_actions, vec![raw]);
    assert!(report.scan_failed());
}

#[test]
fn insert_unique_ignores_duplicates() {
    let mut v: Vec<String> = Vec::new();
    insert_unique(&mut v, &"a/b@v1".to_string());
    insert_unique(&mut v, &"a/b@v1".to_string());
    insert_unique(&mut v, &"c/d@v2".to_string());
    assert_eq!(v, vec!["a/b@v1".to_string(), "c/d@v2".to_string()]);
}
