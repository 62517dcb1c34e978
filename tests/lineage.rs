use legacy_to_git::lineage::{build_chains, find_parent, is_chain_head, walk_from, LineageError, VersionRecord};

fn rec(reference: &str, based_on: Option<&str>) -> VersionRecord {
    VersionRecord {
        reference: reference.to_string(),
        based_on: based_on.map(|b| b.to_string()),
        creation_date: None,
        author: "Jane Roe".to_string(),
        comment: String::new(),
    }
}

fn references(table: &[VersionRecord], chain: &[usize]) -> Vec<String> {
    chain.iter().map(|&i| table[i].reference.clone()).collect()
}

#[test]
fn unlinked_table_has_no_chains() {
    let table = vec![rec("A", None), rec("B", None), rec("C", None)];
    assert_eq!(build_chains(&table), Ok(vec![]));
}

#[test]
fn empty_table_has_no_chains() {
    let table: Vec<VersionRecord> = vec![];
    assert_eq!(build_chains(&table), Ok(vec![]));
}

#[test]
fn single_chain_root_first() {
    let table = vec![rec("C", Some("B")), rec("B", Some("A")), rec("A", None)];
    let chains = build_chains(&table).unwrap();
    assert_eq!(chains.len(), 1);
    assert_eq!(references(&table, &chains[0]), vec!["A", "B", "C"]);
    assert_eq!(chains[0], vec![2, 1, 0]);
}

#[test]
fn only_newest_record_is_head_candidate() {
    let table = vec![rec("X", Some("Y")), rec("Y", Some("Z")), rec("Z", None)];
    assert!(is_chain_head(&table, 0));
    assert!(!is_chain_head(&table, 1));
    assert!(!is_chain_head(&table, 2));
}

#[test]
fn missing_parent_ends_walk() {
    let table = vec![rec("B", Some("A")), rec("A", Some("GONE"))];
    assert_eq!(find_parent(&table, 1), None);
    let chains = build_chains(&table).unwrap();
    assert_eq!(references(&table, &chains[0]), vec!["A", "B"]);
}

#[test]
fn duplicate_reference_takes_first_row() {
    let table = vec![rec("C", Some("A")), rec("A", None), rec("A", None)];
    assert_eq!(find_parent(&table, 0), Some(1));
}

#[test]
fn self_reference_is_not_a_parent() {
    let table = vec![rec("A", Some("A"))];
    assert_eq!(find_parent(&table, 0), None);
    assert_eq!(build_chains(&table), Ok(vec![]));
}

#[test]
fn two_lineages_in_row_order() {
    let table = vec![
        rec("Q2", Some("Q1")),
        rec("P2", Some("P1")),
        rec("Q1", None),
        rec("P1", None),
        rec("LONE", None),
    ];
    let chains = build_chains(&table).unwrap();
    assert_eq!(chains.len(), 2);
    assert_eq!(references(&table, &chains[0]), vec!["Q1", "Q2"]);
    assert_eq!(references(&table, &chains[1]), vec!["P1", "P2"]);
}

#[test]
fn cycle_is_reported() {
    let table = vec![rec("N", Some("A")), rec("A", Some("B")), rec("B", Some("A"))];
    assert_eq!(walk_from(&table, 0), None);
    assert_eq!(build_chains(&table), Err(LineageError::CyclicLineage));
}

#[test]
fn walk_lists_newest_first() {
    let table = vec![rec("C", Some("B")), rec("B", Some("A")), rec("A", None)];
    assert_eq!(walk_from(&table, 0), Some(vec![0, 1, 2]));
    assert_eq!(walk_from(&table, 2), Some(vec![2]));
}
