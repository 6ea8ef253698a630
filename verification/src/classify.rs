//! Classification of the inbound event-type identifier into the closed set
//! of event kinds, with a catch-all kind that carries the unrecognized
//! identifier.

use vstd::prelude::*;
use crate::strutil::str_eq;

verus! {

broadcast use vstd::string::group_string_axioms;

/// The kind of webhook event an invocation handles. Built once from the
/// event-type identifier string; the catch-all variant keeps the
/// identifier so the caller can still report it.
#[derive(Debug, PartialEq, Eq)]
pub enum PayloadType {
    Issue,
    IssueComment,
    Push,
    Repository,
    UnimplementedAction(String),
}

impl PayloadType {
    /// Maps an event-type identifier to its kind. Total: every string has
    /// a mapping, unrecognized ones land in `UnimplementedAction`.
    pub fn from_str(s: &str) -> (r: PayloadType)
        ensures
            s@ == "issues"@ ==> r == PayloadType::Issue,
            s@ == "issue_comment"@ ==> r == PayloadType::IssueComment,
            s@ == "push"@ ==> r == PayloadType::Push,
            s@ == "repository"@ ==> r == PayloadType::Repository,
            !(s@ == "issues"@ || s@ == "issue_comment"@ || s@ == "push"@ || s@ == "repository"@)
                ==> (r matches PayloadType::UnimplementedAction(a) && a@ == s@),
    {
        proof {
            lemma_event_literals_distinct();
        }
        if str_eq(s, "issues") {
            PayloadType::Issue
        } else if str_eq(s, "issue_comment") {
            PayloadType::IssueComment
        } else if str_eq(s, "push") {
            PayloadType::Push
        } else if str_eq(s, "repository") {
            PayloadType::Repository
        } else {
            PayloadType::UnimplementedAction(s.to_owned())
        }
    }
}

/// The four recognized event-type identifiers are pairwise distinct.
proof fn lemma_event_literals_distinct()
    ensures
        "issues"@ != "issue_comment"@,
        "issues"@ != "push"@,
        "issues"@ != "repository"@,
        "issue_comment"@ != "push"@,
        "issue_comment"@ != "repository"@,
        "push"@ != "repository"@,
{
    reveal_strlit("issues");
    reveal_strlit("issue_comment");
    reveal_strlit("push");
    reveal_strlit("repository");
    assert("issues"@.len() == 6);
    assert("issue_comment"@.len() == 13);
    assert("push"@.len() == 4);
    assert("repository"@.len() == 10);
}

} // verus!
