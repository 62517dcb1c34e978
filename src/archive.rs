//! Locating the archived source snapshot of a version.
//!
//! The caller walks the archive directory and hands over the paths it met,
//! in walk order. The first archive whose path names the version wins; when
//! none does, the previously resolved archive stands in for it.
use vstd::prelude::*;
use crate::text::{lower_of, replace_all, replaced, seq_contains, str_contains, to_lower};

verus! {

/// The marker that an archive's path holds, in any letter case.
pub open spec fn archive_marker() -> Seq<char> {
    seq!['.', 'z', 'i', 'p']
}

/// `path` is an archive of `version`: its lower-cased form holds the archive
/// marker and the path itself holds the version identity.
pub open spec fn is_archive_for(path: Seq<char>, version: Seq<char>) -> bool {
    seq_contains(lower_of(path), archive_marker()) && seq_contains(path, version)
}

/// The first path, at or after `start`, that is an archive of `version`.
pub open spec fn first_archive_from(paths: Seq<String>, version: Seq<char>, start: int) -> Option<
    int,
>
    decreases paths.len() - start,
{
    if start < 0 || start >= paths.len() {
        None
    } else if is_archive_for(paths[start]@, version) {
        Some(start)
    } else {
        first_archive_from(paths, version, start + 1)
    }
}

pub open spec fn first_archive(paths: Seq<String>, version: Seq<char>) -> Option<int> {
    first_archive_from(paths, version, 0)
}

/// Where the snapshot of a version was found.
pub enum ArchiveResolution {
    /// An archive whose path names the version.
    Found(String),
    /// No archive names the version; the previously resolved one is used.
    FellBack(String),
}

#[derive(Debug, PartialEq, Eq, Structural)]
pub enum ArchiveError {
    /// No archive names the version and none was resolved before.
    UnresolvableArchive,
}

impl ArchiveResolution {
    pub open spec fn path_view(self) -> Seq<char> {
        match self {
            ArchiveResolution::Found(p) => p@,
            ArchiveResolution::FellBack(p) => p@,
        }
    }

    /// The archive to extract, which is also the fallback for the next
    /// resolution.
    pub fn location(&self) -> (r: &String)
        ensures
            r@ == self.path_view(),
    {
        match self {
            ArchiveResolution::Found(p) => p,
            ArchiveResolution::FellBack(p) => p,
        }
    }
}

/// Whether `path` is an archive of `version`, given `lowered`, the path in
/// lower case.
pub fn archive_name_matches(path: &str, lowered: &str, version: &str) -> (r: bool)
    ensures
        r == (seq_contains(lowered@, archive_marker()) && seq_contains(path@, version@)),
{
    let marker = ".zip";
    proof {
        reveal_strlit(".zip");
    }
    assert(marker@ =~= archive_marker());
    str_contains(lowered, marker) && str_contains(path, version)
}

/// Whether `path` is an archive of `version`.
pub fn is_archive_of(path: &str, version: &str) -> (r: bool)
    ensures
        r == is_archive_for(path@, version@),
{
    let lowered = to_lower(path);
    archive_name_matches(path, lowered.as_str(), version)
}

/// Resolves the archive of `version` among `paths`, given in walk order,
/// falling back to `previous` when no path names the version.
pub fn resolve_archive(paths: &Vec<String>, version: &str, previous: &Option<String>) -> (r:
    Result<ArchiveResolution, ArchiveError>)
    ensures
        match first_archive(paths@, version@) {
            Some(k) => r matches Ok(ArchiveResolution::Found(p)) && p@ == paths@[k]@,
            None => match previous {
                Some(q) => r matches Ok(ArchiveResolution::FellBack(p)) && p@ == q@,
                None => r == Err::<ArchiveResolution, ArchiveError>(
                    ArchiveError::UnresolvableArchive,
                ),
            },
        },
{
    let mut j: usize = 0;
    while j < paths.len()
        invariant
            j <= paths@.len(),
            first_archive(paths@, version@) == first_archive_from(paths@, version@, j as int),
        decreases paths.len() - j,
    {
        if is_archive_of(paths[j].as_str(), version) {
            return Ok(ArchiveResolution::Found(paths[j].clone()));
        }
        j = j + 1;
    }
    match previous {
        Some(q) => Ok(ArchiveResolution::FellBack(q.clone())),
        None => Err(ArchiveError::UnresolvableArchive),
    }
}

/// A path written with Windows separators.
pub open spec fn windows_path(path: Seq<char>) -> Seq<char> {
    replaced(path, seq!['/'], seq!['\\'])
}

/// The path with its separators turned into backslashes on Windows, and
/// unchanged elsewhere.
pub fn get_path(path: &str, windows: bool) -> (r: String)
    ensures
        r@ == (if windows {
            windows_path(path@)
        } else {
            path@
        }),
{
    if windows {
        let slash = "/";
        let backslash = "\\";
        proof {
            reveal_strlit("/");
            reveal_strlit("\\");
        }
        assert(slash@ =~= seq!['/']);
        assert(backslash@ =~= seq!['\\']);
        replace_all(path, slash, backslash)
    } else {
        String::from_str(path)
    }
}

/// One step of the search for an unpacked project's root: the search goes
/// down into a directory's only subdirectory, and stops where there is none
/// or more than one.
pub fn single_subdirectory(subdirectories: &Vec<String>) -> (r: Option<String>)
    ensures
        r is Some <==> subdirectories@.len() == 1,
        r matches Some(d) ==> d@ == subdirectories@[0]@,
{
    if subdirectories.len() == 1 {
        Some(subdirectories[0].clone())
    } else {
        None
    }
}

} // verus!
