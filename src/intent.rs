//! What each commit is made of, derived from its version record.
use vstd::prelude::*;
use crate::lineage::VersionRecord;
use crate::text::{lower_of, replace_all, replaced, to_lower};
use crate::timestamp::{commit_time_of, commit_unix_time};

verus! {

/// Everything a commit of one version needs: when, what, who, and the name
/// of the version, which also names its tag.
pub struct GitInfo {
    /// Unix timestamp, in seconds.
    pub commit_time: i64,
    pub commit_message: String,
    pub author_name: String,
    pub author_email: String,
    pub branch_name: String,
}

impl GitInfo {
    pub fn new(
        commit_time: i64,
        commit_message: String,
        author_name: String,
        author_email: String,
        branch_name: String,
    ) -> (r: Self)
        ensures
            r.commit_time == commit_time,
            r.commit_message@ == commit_message@,
            r.author_name@ == author_name@,
            r.author_email@ == author_email@,
            r.branch_name@ == branch_name@,
    {
        GitInfo { commit_time, commit_message, author_name, author_email, branch_name }
    }
}

/// The domain of the addresses given to authors.
pub open spec fn email_domain() -> Seq<char> {
    seq!['@', 'a', 'l', 'l', 'i', 'a', 'n', 'z', '.', 'c', 'o', 'm']
}

/// `[reference] comment`.
pub open spec fn message_of(reference: Seq<char>, comment: Seq<char>) -> Seq<char> {
    seq!['['] + reference + seq![']', ' '] + comment
}

/// An author's name without its spaces.
pub open spec fn squeezed_name(author: Seq<char>) -> Seq<char> {
    replaced(author, seq![' '], Seq::<char>::empty())
}

/// An author's address: the name without spaces, in lower case, at the
/// domain.
pub open spec fn email_of(author: Seq<char>) -> Seq<char> {
    lower_of(squeezed_name(author)) + email_domain()
}

/// `info` is the commit intent of `rec`.
pub open spec fn is_intent_of(info: GitInfo, rec: VersionRecord) -> bool {
    &&& info.commit_time == commit_time_of(rec.creation_date)
    &&& info.commit_message@ == message_of(rec.reference@, rec.comment@)
    &&& info.author_name@ == rec.author@
    &&& info.author_email@ == email_of(rec.author@)
    &&& info.branch_name@ == rec.reference@
}

pub fn commit_message(reference: &str, comment: &str) -> (r: String)
    ensures
        r@ == message_of(reference@, comment@),
{
    let open = "[";
    let close = "] ";
    proof {
        reveal_strlit("[");
        reveal_strlit("] ");
    }
    let mut m = String::from_str(open);
    m.append(reference);
    m.append(close);
    m.append(comment);
    assert(m@ =~= message_of(reference@, comment@));
    m
}

/// The address for a name already squeezed and lower-cased.
pub fn email_from_lowered(lowered: &str) -> (r: String)
    ensures
        r@ == lowered@ + email_domain(),
{
    let domain = "@allianz.com";
    proof {
        reveal_strlit("@allianz.com");
    }
    assert(domain@ =~= email_domain());
    String::from_str(lowered).concat(domain)
}

pub fn author_email(author: &str) -> (r: String)
    ensures
        r@ == email_of(author@),
{
    let space = " ";
    let nothing = "";
    proof {
        reveal_strlit(" ");
        reveal_strlit("");
    }
    assert(space@ =~= seq![' ']);
    assert(nothing@ =~= Seq::<char>::empty());
    let squeezed = replace_all(author, space, nothing);
    let lowered = to_lower(squeezed.as_str());
    email_from_lowered(lowered.as_str())
}

/// The commit intent of a record.
pub fn git_info_for(rec: &VersionRecord) -> (r: GitInfo)
    ensures
        is_intent_of(r, *rec),
{
    GitInfo::new(
        commit_unix_time(rec.creation_date),
        commit_message(rec.reference.as_str(), rec.comment.as_str()),
        rec.author.clone(),
        author_email(rec.author.as_str()),
        rec.reference.clone(),
    )
}

} // verus!
