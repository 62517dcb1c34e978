//! The replay ledger: which versions were committed, and as which commit.
//!
//! Entries keep the order in which they were recorded, so that the loose
//! ancestor search below has one defined answer: the first recorded match.
use vstd::prelude::*;
use crate::text::{seq_contains, str_contains};

verus! {

/// A version that has been committed, with the identity of its commit.
pub struct VisitedReference {
    pub reference: String,
    pub commit_hash: String,
}

impl VisitedReference {
    pub fn new(reference: String, commit_hash: String) -> (r: Self)
        ensures
            r.reference@ == reference@,
            r.commit_hash@ == commit_hash@,
    {
        VisitedReference { reference, commit_hash }
    }

    pub open spec fn pair(self) -> (Seq<char>, Seq<char>) {
        (self.reference@, self.commit_hash@)
    }
}

/// Entries of a ledger as `(reference, commit identity)` pairs, in the order
/// in which they were recorded.
pub type LedgerView = Seq<(Seq<char>, Seq<char>)>;

/// The entries after recording `p`: unchanged when `p` is already there.
pub open spec fn recorded(s: LedgerView, p: (Seq<char>, Seq<char>)) -> LedgerView {
    if s.contains(p) {
        s
    } else {
        s.push(p)
    }
}

/// The commit identity of the first entry whose reference contains
/// `candidate`.
pub open spec fn ancestor_in(s: LedgerView, candidate: Seq<char>) -> Option<Seq<char>>
    decreases s.len(),
{
    if s.len() == 0 {
        None
    } else if seq_contains(s[0].0, candidate) {
        Some(s[0].1)
    } else {
        ancestor_in(s.drop_first(), candidate)
    }
}

/// Committed versions in the order of their commits.
pub struct ReplayLedger {
    entries: Vec<VisitedReference>,
}

impl View for ReplayLedger {
    type V = LedgerView;

    closed spec fn view(&self) -> LedgerView {
        self.entries@.map_values(|e: VisitedReference| e.pair())
    }
}

impl ReplayLedger {
    /// No pair is recorded twice.
    pub open spec fn wf(self) -> bool {
        self@.no_duplicates()
    }

    pub fn new() -> (r: Self)
        ensures
            r@ == Seq::<(Seq<char>, Seq<char>)>::empty(),
            r.wf(),
    {
        let r = ReplayLedger { entries: Vec::new() };
        assert(r@ =~= Seq::<(Seq<char>, Seq<char>)>::empty());
        r
    }

    pub fn len(&self) -> (r: usize)
        ensures
            r == self@.len(),
    {
        self.entries.len()
    }

    /// Whether the exact pair is in the ledger.
    pub fn contains(&self, reference: &String, commit_hash: &String) -> (r: bool)
        ensures
            r == self@.contains((reference@, commit_hash@)),
    {
        let mut j: usize = 0;
        while j < self.entries.len()
            invariant
                j <= self.entries@.len(),
                self@.len() == self.entries@.len(),
                forall|m: int| 0 <= m < j ==> self@[m] != (reference@, commit_hash@),
            decreases self.entries.len() - j,
        {
            let e = &self.entries[j];
            assert(self@[j as int] == e.pair());
            if e.reference.eq(reference) && e.commit_hash.eq(commit_hash) {
                return true;
            }
            j = j + 1;
        }
        false
    }

    /// Records that `reference` was committed as `commit_hash`; recording a
    /// pair that is already there changes nothing.
    pub fn record(&mut self, reference: String, commit_hash: String)
        requires
            old(self).wf(),
        ensures
            final(self).wf(),
            final(self)@ == recorded(old(self)@, (reference@, commit_hash@)),
    {
        if !self.contains(&reference, &commit_hash) {
            let ghost before = self@;
            self.entries.push(VisitedReference::new(reference, commit_hash));
            assert(self@ =~= before.push((reference@, commit_hash@)));
            proof {
                assert forall|a: int, b: int| 0 <= a < b < self@.len() implies self@[a]
                    != self@[b] by {
                    if b == self@.len() - 1 {
                        assert(before.contains(self@[a]));
                    }
                }
            }
        }
    }

    /// The commit identity of the first recorded entry whose reference
    /// contains `candidate`.
    pub fn find_ancestor(&self, candidate: &str) -> (r: Option<String>)
        ensures
            match r {
                Some(h) => ancestor_in(self@, candidate@) == Some(h@),
                None => ancestor_in(self@, candidate@) is None,
            },
    {
        let mut j: usize = 0;
        assert(self@.subrange(0, self@.len() as int) =~= self@);
        while j < self.entries.len()
            invariant
                j <= self.entries@.len(),
                self@.len() == self.entries@.len(),
                ancestor_in(self@, candidate@) == ancestor_in(
                    self@.subrange(j as int, self@.len() as int),
                    candidate@,
                ),
            decreases self.entries.len() - j,
        {
            let e = &self.entries[j];
            let ghost rest = self@.subrange(j as int, self@.len() as int);
            assert(rest[0] == e.pair());
            assert(rest.drop_first() =~= self@.subrange(j + 1, self@.len() as int));
            if str_contains(e.reference.as_str(), candidate) {
                return Some(e.commit_hash.clone());
            }
            j = j + 1;
        }
        None
    }
}

/// Looks for a recorded version whose reference contains `substring`. On a
/// match, `previous_commit_hash` takes the commit identity of the first such
/// entry and the result is true; otherwise nothing changes.
pub fn contains_substring(
    ledger: &ReplayLedger,
    substring: &str,
    previous_commit_hash: &mut String,
) -> (r: bool)
    ensures
        r == ancestor_in(ledger@, substring@) is Some,
        r ==> final(previous_commit_hash)@ == ancestor_in(ledger@, substring@)->0,
        !r ==> final(previous_commit_hash)@ == old(previous_commit_hash)@,
{
    match ledger.find_ancestor(substring) {
        Some(h) => {
            *previous_commit_hash = h;
            true
        },
        None => false,
    }
}

/// Recording the same pair a second time leaves the ledger as the first
/// recording left it.
pub proof fn lemma_record_idempotent(s: LedgerView, p: (Seq<char>, Seq<char>))
    ensures
        recorded(recorded(s, p), p) == recorded(s, p),
{
    if !s.contains(p) {
        assert(s.push(p)[s.len() as int] == p);
    }
}

} // verus!
