use legacy_to_git::engine::{ReplayAction, ReplayEngine, ReplayError};
use legacy_to_git::intent::{author_email, commit_message, git_info_for};
use legacy_to_git::lineage::VersionRecord;

fn rec(reference: &str, based_on: Option<&str>) -> VersionRecord {
    VersionRecord {
        reference: reference.to_string(),
        based_on: based_on.map(|b| b.to_string()),
        creation_date: Some(44927),
        author: "Jane Roe".to_string(),
        comment: "note".to_string(),
    }
}

/// Drives the engine, answering each commit with `c1`, `c2`, ... and
/// describing each action in a line.
fn replay(table: &Vec<VersionRecord>, chains: &Vec<Vec<usize>>) -> Result<Vec<String>, ReplayError> {
    let mut engine = ReplayEngine::new();
    let mut log = Vec::new();
    let mut commits = 0;
    loop {
        match engine.next_action(table, chains)? {
            ReplayAction::Bootstrap { info, branch_name } => {
                log.push(format!("bootstrap {} by {}", branch_name, info.branch_name))
            }
            ReplayAction::CreateBranch { branch_name, base_commit } => {
                log.push(format!("branch {} at {}", branch_name, base_commit))
            }
            ReplayAction::Skip { row, commit } => {
                log.push(format!("skip {} as {}", table[row].reference, commit))
            }
            ReplayAction::Commit { row, info } => {
                commits += 1;
                let id = format!("c{}", commits);
                log.push(format!("commit {} tag {} as {}", table[row].reference, info.branch_name, id));
                engine.commit_done(table, id);
            }
            ReplayAction::Finished => return Ok(log),
        }
    }
}

#[test]
fn second_chain_branches_off_matched_ancestor() {
    let table = vec![
        rec("V-300", Some("V-200")),
        rec("V-200", None),
        rec("V-200-B", Some("V-100")),
        rec("V-100", None),
    ];
    let chains = vec![vec![3, 2], vec![1, 0]];
    let log = replay(&table, &chains).unwrap();
    assert_eq!(
        log,
        vec![
            "bootstrap V-200-B by V-100",
            "commit V-100 tag V-100 as c1",
            "commit V-200-B tag V-200-B as c2",
            "skip V-200 as c2",
            "branch V-300 at c2",
            "commit V-300 tag V-300 as c3",
        ]
    );
}

#[test]
fn chain_without_ancestor_is_an_error() {
    let table = vec![rec("B", Some("A")), rec("A", None), rec("Y", Some("X")), rec("X", None)];
    let chains = vec![vec![1, 0], vec![3, 2]];
    assert_eq!(replay(&table, &chains), Err(ReplayError::MissingAncestor));
}

#[test]
fn no_chains_finish_at_once() {
    let table: Vec<VersionRecord> = vec![];
    let chains: Vec<Vec<usize>> = vec![];
    assert_eq!(replay(&table, &chains).unwrap(), Vec::<String>::new());
}

#[test]
fn later_records_commit_on_new_branch() {
    let table = vec![
        rec("B", Some("A")),
        rec("A", None),
        rec("A", None),
        rec("C", None),
        rec("D", None),
    ];
    let chains = vec![vec![1, 0], vec![2, 3, 4]];
    let log = replay(&table, &chains).unwrap();
    assert_eq!(
        log,
        vec![
            "bootstrap B by A",
            "commit A tag A as c1",
            "commit B tag B as c2",
            "skip A as c1",
            "branch C at c1",
            "commit C tag C as c3",
            "commit D tag D as c4",
        ]
    );
}

#[test]
fn ledger_records_commits() {
    let table = vec![rec("B", Some("A")), rec("A", None)];
    let chains = vec![vec![1, 0]];
    let mut engine = ReplayEngine::new();
    assert!(matches!(engine.next_action(&table, &chains), Ok(ReplayAction::Bootstrap { .. })));
    assert!(matches!(engine.next_action(&table, &chains), Ok(ReplayAction::Commit { row: 1, .. })));
    engine.commit_done(&table, "h1".to_string());
    assert!(engine.ledger.contains(&"A".to_string(), &"h1".to_string()));
}

#[test]
fn commit_intent_of_record() {
    let info = git_info_for(&rec("V-1", None));
    assert_eq!(info.commit_time, 1672531200);
    assert_eq!(info.commit_message, "[V-1] note");
    assert_eq!(info.author_name, "Jane Roe");
    assert_eq!(info.author_email, "janeroe@allianz.com");
    assert_eq!(info.branch_name, "V-1");
}

#[test]
fn author_email_squeezes_and_lowers() {
    assert_eq!(author_email("Mary Ann SMITH"), "maryannsmith@allianz.com");
    assert_eq!(commit_message("R", ""), "[R] ");
}
