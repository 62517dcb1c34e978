use legacy_to_git::ledger::{contains_substring, ReplayLedger, VisitedReference};

#[test]
fn recording_twice_changes_nothing() {
    let mut ledger = ReplayLedger::new();
    ledger.record("R1".to_string(), "c1".to_string());
    ledger.record("R1".to_string(), "c1".to_string());
    assert_eq!(ledger.len(), 1);
    assert!(ledger.contains(&"R1".to_string(), &"c1".to_string()));
    ledger.record("R1".to_string(), "c2".to_string());
    assert_eq!(ledger.len(), 2);
}

#[test]
fn ancestor_found_by_substring() {
    let mut ledger = ReplayLedger::new();
    ledger.record("B13264R-A-01".to_string(), "c1".to_string());
    ledger.record("B13264R-A-02".to_string(), "c2".to_string());
    assert_eq!(ledger.find_ancestor("A-02"), Some("c2".to_string()));
    assert_eq!(ledger.find_ancestor("B13264R"), Some("c1".to_string()));
    assert_eq!(ledger.find_ancestor("A-03"), None);
}

#[test]
fn contains_substring_sets_previous_commit() {
    let mut ledger = ReplayLedger::new();
    ledger.record("V-200-B".to_string(), "abc".to_string());
    let mut previous = String::from("old");
    assert!(!contains_substring(&ledger, "V-300", &mut previous));
    assert_eq!(previous, "old");
    assert!(contains_substring(&ledger, "V-200", &mut previous));
    assert_eq!(previous, "abc");
}

#[test]
fn visited_reference_keeps_fields() {
    let v = VisitedReference::new("R".to_string(), "h".to_string());
    assert_eq!(v.reference, "R");
    assert_eq!(v.commit_hash, "h");
}
