//! Reconstruction of lineages ("chains") from a table of version records.
//!
//! The table is ordered newest first. A chain is a list of row indices,
//! oldest record first, that follows the `based_on` links of its newest
//! record down to a record without a parent in the table.
use vstd::prelude::*;

verus! {

/// One row of the input table.
pub struct VersionRecord {
    /// Key of the record within the table.
    pub reference: String,
    /// Reference of the record this one was derived from, if any.
    pub based_on: Option<String>,
    /// Creation time as a spreadsheet serial day count; `None` when the
    /// cell was missing or could not be read.
    pub creation_date: Option<i64>,
    pub author: String,
    pub comment: String,
}

/// Why a table could not be turned into chains.
#[derive(Debug, PartialEq, Eq, Structural)]
pub enum LineageError {
    /// Following `based_on` links from a chain head revisits a record.
    CyclicLineage,
}

/// `child` names `parent` as the record it is based on.
pub open spec fn declares_parent(child: VersionRecord, parent: VersionRecord) -> bool {
    match child.based_on {
        Some(b) => b@ == parent.reference@,
        None => false,
    }
}

/// No record newer than row `i` (at a smaller index) is based on it.
pub open spec fn is_head_candidate(t: Seq<VersionRecord>, i: int) -> bool {
    forall|j: int| 0 <= j < i ==> !declares_parent(#[trigger] t[j], t[i])
}

/// The first row at or after `start`, other than `k` itself, that row `k`
/// is based on.
pub open spec fn parent_from(t: Seq<VersionRecord>, k: int, start: int) -> Option<int>
    decreases t.len() - start,
{
    if start < 0 || start >= t.len() {
        None
    } else if start != k && declares_parent(t[k], t[start]) {
        Some(start)
    } else {
        parent_from(t, k, start + 1)
    }
}

/// The parent row of row `k`: the first other row whose reference row `k`
/// is based on.
pub open spec fn parent_of(t: Seq<VersionRecord>, k: int) -> Option<int> {
    parent_from(t, k, 0)
}

/// The rows met when following parents from row `i`, newest first, when
/// the walk ends within `fuel` rows; `None` when it does not.
pub open spec fn descent(t: Seq<VersionRecord>, i: int, fuel: nat) -> Option<Seq<int>>
    decreases fuel,
{
    if fuel == 0 {
        None
    } else {
        match parent_of(t, i) {
            None => Some(seq![i]),
            Some(j) => match descent(t, j, (fuel - 1) as nat) {
                Some(s) => Some(seq![i] + s),
                None => None,
            },
        }
    }
}

/// The walk from row `i` is bounded by the size of the table.
pub open spec fn walk(t: Seq<VersionRecord>, i: int) -> Option<Seq<int>> {
    descent(t, i, t.len())
}

/// Some head candidate among the first `n` rows starts a walk that never ends.
pub open spec fn cyclic_head_before(t: Seq<VersionRecord>, n: int) -> bool {
    exists|i: int| 0 <= i < n && is_head_candidate(t, i) && #[trigger] walk(t, i) is None
}

/// The chains that start at the first `n` rows, in row order: for each head
/// candidate whose walk ends and meets at least two rows, the rows of that
/// walk, oldest first.
pub open spec fn chains_upto(t: Seq<VersionRecord>, n: int) -> Seq<Seq<int>>
    decreases n,
{
    if n <= 0 {
        seq![]
    } else {
        let prev = chains_upto(t, n - 1);
        let i = n - 1;
        if is_head_candidate(t, i) && walk(t, i) is Some && walk(t, i)->0.len() >= 2 {
            prev.push(walk(t, i)->0.reverse())
        } else {
            prev
        }
    }
}

/// All chains of the table.
pub open spec fn chains_of(t: Seq<VersionRecord>) -> Seq<Seq<int>> {
    chains_upto(t, t.len() as int)
}

/// Row indices as integers.
pub open spec fn ints(v: Seq<usize>) -> Seq<int> {
    v.map_values(|x: usize| x as int)
}

/// Chains as sequences of integer row indices.
pub open spec fn chain_views(c: Seq<Vec<usize>>) -> Seq<Seq<int>> {
    c.map_values(|v: Vec<usize>| ints(v@))
}

/// Every chain is non-empty and lists rows of a table of `n` rows.
pub open spec fn chains_valid(chains: Seq<Vec<usize>>, n: int) -> bool {
    forall|k: int|
        0 <= k < chains.len() ==> (#[trigger] chains[k])@.len() > 0 && forall|m: int|
            0 <= m < chains[k]@.len() ==> chains[k]@[m] < n
}

/// A walk preceded by the rows `p` already met.
pub open spec fn prefixed(p: Seq<int>, o: Option<Seq<int>>) -> Option<Seq<int>> {
    match o {
        Some(s) => Some(p + s),
        None => None,
    }
}

/// Whether `child` is based on the record whose reference is `reference`.
fn names_parent(child: &VersionRecord, reference: &String) -> (r: bool)
    ensures
        r == (child.based_on is Some && child.based_on->0@ == reference@),
{
    match &child.based_on {
        Some(b) => b.eq(reference),
        None => false,
    }
}

/// Whether row `i` may start a chain: no newer row is based on it.
pub fn is_chain_head(table: &Vec<VersionRecord>, i: usize) -> (r: bool)
    requires
        i < table.len(),
    ensures
        r == is_head_candidate(table@, i as int),
{
    let mut j: usize = 0;
    while j < i
        invariant
            j <= i < table.len(),
            forall|jj: int| 0 <= jj < j ==> !declares_parent(#[trigger] table@[jj], table@[i as int]),
        decreases i - j,
    {
        if names_parent(&table[j], &table[i].reference) {
            return false;
        }
        j = j + 1;
    }
    true
}

/// The parent row of row `k`, searching the whole table in row order.
pub fn find_parent(table: &Vec<VersionRecord>, k: usize) -> (r: Option<usize>)
    requires
        k < table.len(),
    ensures
        match r {
            Some(j) => parent_of(table@, k as int) == Some(j as int) && j < table.len(),
            None => parent_of(table@, k as int) is None,
        },
{
    let mut j: usize = 0;
    while j < table.len()
        invariant
            k < table.len(),
            j <= table.len(),
            parent_of(table@, k as int) == parent_from(table@, k as int, j as int),
        decreases table.len() - j,
    {
        if j != k {
            if let Some(b) = &table[k].based_on {
                if b.eq(&table[j].reference) {
                    return Some(j);
                }
            }
        }
        j = j + 1;
    }
    None
}

/// Follows parents from row `i`, newest row first; `None` when the walk
/// meets more rows than the table holds, which only a cycle can cause.
pub fn walk_from(table: &Vec<VersionRecord>, i: usize) -> (r: Option<Vec<usize>>)
    requires
        i < table.len(),
    ensures
        match r {
            Some(p) => walk(table@, i as int) == Some(ints(p@)),
            None => walk(table@, i as int) is None,
        },
        r matches Some(p) ==> forall|m: int| 0 <= m < p@.len() ==> p@[m] < table.len(),
{
    let n = table.len();
    let mut path: Vec<usize> = Vec::new();
    let mut current = i;
    loop
        invariant
            n == table.len(),
            current < n,
            path@.len() <= n,
            forall|m: int| 0 <= m < path@.len() ==> path@[m] < n,
            walk(table@, i as int) == prefixed(
                ints(path@),
                descent(table@, current as int, (n - path@.len()) as nat),
            ),
        decreases n - path@.len(),
    {
        if path.len() == n {
            return None;
        }
        let ghost before = path@;
        let ghost fuel = (n - path@.len()) as nat;
        path.push(current);
        assert(ints(path@) =~= ints(before) + seq![current as int]);
        match find_parent(table, current) {
            None => {
                assert(ints(path@) =~= ints(before) + seq![current as int]);
                return Some(path);
            },
            Some(j) => {
                proof {
                    let rest = descent(table@, j as int, (fuel - 1) as nat);
                    if let Some(s) = rest {
                        assert(ints(before) + (seq![current as int] + s) =~= ints(path@) + s);
                    }
                }
                current = j;
            },
        }
    }
}

/// The rows of `path` in the opposite order.
fn reversed(path: &Vec<usize>) -> (r: Vec<usize>)
    ensures
        ints(r@) == ints(path@).reverse(),
        r@.len() == path@.len(),
        forall|m: int| 0 <= m < r@.len() ==> r@[m] == path@[path@.len() - 1 - m],
{
    let mut r: Vec<usize> = Vec::new();
    let mut k = path.len();
    while k > 0
        invariant
            k <= path@.len(),
            r@.len() == path@.len() - k,
            forall|m: int| 0 <= m < r@.len() ==> r@[m] == path@[path@.len() - 1 - m],
        decreases k,
    {
        k = k - 1;
        r.push(path[k]);
    }
    assert(ints(r@) =~= ints(path@).reverse());
    r
}

/// Builds the chains of a table ordered newest first. Each chain lists row
/// indices oldest first; chains of a single row are left out. Fails when a
/// walk from a head candidate runs into a cycle.
pub fn build_chains(table: &Vec<VersionRecord>) -> (r: Result<Vec<Vec<usize>>, LineageError>)
    ensures
        match r {
            Ok(c) => !cyclic_head_before(table@, table@.len() as int) && chain_views(c@)
                == chains_of(table@) && chains_valid(c@, table@.len() as int),
            Err(e) => e == LineageError::CyclicLineage && cyclic_head_before(
                table@,
                table@.len() as int,
            ),
        },
{
    let mut chains: Vec<Vec<usize>> = Vec::new();
    let mut i: usize = 0;
    while i < table.len()
        invariant
            i <= table.len(),
            chain_views(chains@) == chains_upto(table@, i as int),
            !cyclic_head_before(table@, i as int),
            chains_valid(chains@, table@.len() as int),
        decreases table.len() - i,
    {
        let ghost before = chains@;
        if is_chain_head(table, i) {
            match walk_from(table, i) {
                None => {
                    return Err(LineageError::CyclicLineage);
                },
                Some(path) => {
                    if path.len() >= 2 {
                        let chain = reversed(&path);
                        chains.push(chain);
                        assert(chain_views(chains@) =~= chain_views(before).push(ints(chain@)));
                        assert(chains@[chains@.len() - 1] == chain);
                    }
                },
            }
        }
        i = i + 1;
    }
    Ok(chains)
}

proof fn lemma_rootless_parent_from(t: Seq<VersionRecord>, k: int, start: int)
    requires
        0 <= k < t.len(),
        t[k].based_on is None,
    ensures
        parent_from(t, k, start) is None,
    decreases t.len() - start,
{
    if 0 <= start < t.len() {
        lemma_rootless_parent_from(t, k, start + 1);
    }
}

proof fn lemma_unlinked_chains_upto(t: Seq<VersionRecord>, n: int)
    requires
        n <= t.len(),
        forall|i: int| 0 <= i < t.len() ==> (#[trigger] t[i]).based_on is None,
    ensures
        chains_upto(t, n) == Seq::<Seq<int>>::empty(),
        !cyclic_head_before(t, n),
    decreases n,
{
    if n > 0 {
        lemma_unlinked_chains_upto(t, n - 1);
        lemma_rootless_parent_from(t, n - 1, 0);
        assert(walk(t, n - 1) == Some(seq![n - 1]));
    }
    assert forall|i: int| 0 <= i < n implies #[trigger] walk(t, i) is Some by {
        lemma_rootless_parent_from(t, i, 0);
    }
}

/// A table in which no record names a parent has no chains, and no walk in
/// it runs into a cycle.
pub proof fn lemma_unlinked_table_has_no_chains(t: Seq<VersionRecord>)
    requires
        forall|i: int| 0 <= i < t.len() ==> (#[trigger] t[i]).based_on is None,
    ensures
        chains_of(t) == Seq::<Seq<int>>::empty(),
        !cyclic_head_before(t, t.len() as int),
{
    lemma_unlinked_chains_upto(t, t.len() as int);
}

} // verus!
