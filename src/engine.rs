//! The replay of chains as version-control history, as a state machine.
//!
//! The caller asks for the next action, performs it on the repository, and
//! reports the identity of each commit it made. Chains are replayed in
//! order. The first one starts the history: an empty root commit, a branch
//! named after the chain's newest record, and one commit per record. Every
//! later chain skips the records that the ledger already holds and branches
//! off the commit of the last one it skipped.
use vstd::prelude::*;
use crate::intent::{GitInfo, git_info_for, is_intent_of};
use crate::ledger::{ReplayLedger, ancestor_in, recorded};
use crate::lineage::{VersionRecord, chains_valid};

verus! {

/// What the repository is to do next.
pub enum ReplayAction {
    /// Make the empty root commit, signed as `info` says, then create the
    /// branch `branch_name` there and switch to it.
    Bootstrap { info: GitInfo, branch_name: String },
    /// Create the branch `branch_name` at commit `base_commit` and switch to it.
    CreateBranch { branch_name: String, base_commit: String },
    /// Record `row` is already in the history, as commit `commit`.
    Skip { row: usize, commit: String },
    /// Replace the working tree with the archive of record `row`, stage it,
    /// commit on the current branch as `info` says, tag the commit with
    /// `info.branch_name`, and report the commit's identity.
    Commit { row: usize, info: GitInfo },
    /// Every chain has been replayed.
    Finished,
}

/// Why the replay cannot go on.
#[derive(Debug, PartialEq, Eq, Structural)]
pub enum ReplayError {
    /// A chain after the first holds no record that is already in the
    /// history, so there is no commit to branch off.
    MissingAncestor,
}

/// The replay's progress.
pub struct ReplayEngine {
    /// Versions committed so far.
    pub ledger: ReplayLedger,
    /// The chain being replayed.
    pub chain: usize,
    /// The next record of that chain.
    pub position: usize,
    /// The chain's branch exists and is checked out.
    pub branch_ready: bool,
    /// Commit of the last record of this chain found in the ledger.
    pub previous_commit: Option<String>,
    /// The record whose commit has been asked for and not yet reported.
    pub awaiting: Option<usize>,
}

impl ReplayEngine {
    pub open spec fn wf(self, chains: Seq<Vec<usize>>) -> bool {
        &&& self.ledger.wf()
        &&& self.chain <= chains.len()
        &&& self.chain < chains.len() ==> self.position <= chains[self.chain as int]@.len()
    }

    /// The current chain has records left.
    pub open spec fn in_chain(self, chains: Seq<Vec<usize>>) -> bool {
        self.chain < chains.len() && self.position < chains[self.chain as int]@.len()
    }

    /// The chain that the next action is about: the current one while it
    /// has records left, else the next one.
    pub open spec fn active_chain(self, chains: Seq<Vec<usize>>) -> int {
        if self.in_chain(chains) || self.chain >= chains.len() {
            self.chain as int
        } else {
            self.chain + 1
        }
    }

    pub open spec fn active_position(self, chains: Seq<Vec<usize>>) -> int {
        if self.in_chain(chains) {
            self.position as int
        } else {
            0
        }
    }

    pub open spec fn active_branch_ready(self, chains: Seq<Vec<usize>>) -> bool {
        self.in_chain(chains) && self.branch_ready
    }

    pub open spec fn active_previous(self, chains: Seq<Vec<usize>>) -> Option<String> {
        if self.in_chain(chains) {
            self.previous_commit
        } else {
            None
        }
    }

    /// The row of the record that the next action is about.
    pub open spec fn active_row(self, chains: Seq<Vec<usize>>) -> int {
        chains[self.active_chain(chains)]@[self.active_position(chains)] as int
    }

    pub fn new() -> (r: Self)
        ensures
            r.ledger@ == Seq::<(Seq<char>, Seq<char>)>::empty(),
            r.ledger.wf(),
            r.chain == 0,
            r.position == 0,
            !r.branch_ready,
            r.previous_commit is None,
            r.awaiting is None,
    {
        ReplayEngine {
            ledger: ReplayLedger::new(),
            chain: 0,
            position: 0,
            branch_ready: false,
            previous_commit: None,
            awaiting: None,
        }
    }

    /// Decides the next action of the replay of `chains`, rows of `table`.
    pub fn next_action(&mut self, table: &Vec<VersionRecord>, chains: &Vec<Vec<usize>>) -> (r:
        Result<ReplayAction, ReplayError>)
        requires
            old(self).wf(chains@),
            old(self).awaiting is None,
            chains_valid(chains@, table@.len() as int),
        ensures
            final(self).wf(chains@),
            final(self).ledger@ == old(self).ledger@,
            ({
                let s = *old(self);
                let k = s.active_chain(chains@);
                let pos = s.active_position(chains@);
                let row = s.active_row(chains@);
                let rec = table@[row];
                let f = *final(self);
                if k >= chains@.len() {
                    r matches Ok(ReplayAction::Finished) && f.awaiting is None
                } else if k == 0 {
                    if !s.active_branch_ready(chains@) {
                        r matches Ok(ReplayAction::Bootstrap { info, branch_name })
                            && is_intent_of(info, table@[chains@[0]@[0] as int])
                            && branch_name@ == table@[chains@[0]@.last() as int].reference@
                            && f.chain == 0 && f.position == pos && f.branch_ready
                            && f.awaiting is None
                    } else {
                        r matches Ok(ReplayAction::Commit { row: rw, info }) && rw == row
                            && is_intent_of(info, rec) && f.chain == 0 && f.position == pos + 1
                            && f.branch_ready && f.awaiting == Some(rw)
                    }
                } else {
                    match ancestor_in(s.ledger@, rec.reference@) {
                        Some(h) => r matches Ok(ReplayAction::Skip { row: rw, commit })
                            && rw == row && commit@ == h && f.chain == k && f.position == pos + 1
                            && f.branch_ready == s.active_branch_ready(chains@)
                            && (f.previous_commit matches Some(p) && p@ == h)
                            && f.awaiting is None,
                        None => if s.active_branch_ready(chains@) {
                            r matches Ok(ReplayAction::Commit { row: rw, info }) && rw == row
                                && is_intent_of(info, rec) && f.chain == k
                                && f.position == pos + 1 && f.branch_ready
                                && f.awaiting == Some(rw)
                        } else {
                            match s.active_previous(chains@) {
                                Some(p) => r matches Ok(
                                    ReplayAction::CreateBranch { branch_name, base_commit },
                                ) && branch_name@ == rec.reference@ && base_commit@ == p@
                                    && f.chain == k && f.position == pos && f.branch_ready
                                    && f.awaiting is None,
                                None => r == Err::<ReplayAction, ReplayError>(
                                    ReplayError::MissingAncestor,
                                ),
                            }
                        },
                    }
                }
            }),
    {
        if self.chain < chains.len() && self.position >= chains[self.chain].len() {
            self.chain = self.chain + 1;
            self.position = 0;
            self.branch_ready = false;
            self.previous_commit = None;
        }
        if self.chain >= chains.len() {
            return Ok(ReplayAction::Finished);
        }
        let chain = &chains[self.chain];
        let row = chain[self.position];
        if self.chain == 0 {
            if !self.branch_ready {
                self.branch_ready = true;
                let head = chain[chain.len() - 1];
                return Ok(
                    ReplayAction::Bootstrap {
                        info: git_info_for(&table[chain[0]]),
                        branch_name: table[head].reference.clone(),
                    },
                );
            }
            self.position = self.position + 1;
            self.awaiting = Some(row);
            return Ok(ReplayAction::Commit { row, info: git_info_for(&table[row]) });
        }
        match self.ledger.find_ancestor(table[row].reference.as_str()) {
            Some(h) => {
                self.position = self.position + 1;
                self.previous_commit = Some(h.clone());
                Ok(ReplayAction::Skip { row, commit: h })
            },
            None => {
                if self.branch_ready {
                    self.position = self.position + 1;
                    self.awaiting = Some(row);
                    Ok(ReplayAction::Commit { row, info: git_info_for(&table[row]) })
                } else {
                    match &self.previous_commit {
                        Some(p) => {
                            let base_commit = p.clone();
                            self.branch_ready = true;
                            Ok(
                                ReplayAction::CreateBranch {
                                    branch_name: table[row].reference.clone(),
                                    base_commit,
                                },
                            )
                        },
                        None => Err(ReplayError::MissingAncestor),
                    }
                }
            },
        }
    }

    /// Takes the identity of the commit made for the awaited record and
    /// records it in the ledger.
    pub fn commit_done(&mut self, table: &Vec<VersionRecord>, commit_hash: String)
        requires
            old(self).ledger.wf(),
            old(self).awaiting matches Some(row) && row < table@.len(),
        ensures
            final(self).ledger.wf(),
            final(self).ledger@ == recorded(
                old(self).ledger@,
                (table@[old(self).awaiting->0 as int].reference@, commit_hash@),
            ),
            final(self).awaiting is None,
            final(self).chain == old(self).chain,
            final(self).position == old(self).position,
            final(self).branch_ready == old(self).branch_ready,
            final(self).previous_commit == old(self).previous_commit,
    {
        if let Some(row) = self.awaiting {
            self.ledger.record(table[row].reference.clone(), commit_hash);
            self.awaiting = None;
        }
    }
}

} // verus!
