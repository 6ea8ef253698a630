//! The typed webhook payload shapes the composers consume, already
//! deserialized from the wire by the caller. Every field is a plain value;
//! the composers only ever read them.

use vstd::prelude::*;

verus! {

/// A user reference: the account that triggered or is named by the event.
pub struct User {
    pub login: String,
}

/// A label attached to an issue.
pub struct Label {
    pub name: String,
}

/// The repository an issue, comment or push belongs to.
pub struct Repo {
    pub name: String,
    pub html_url: String,
}

/// The repository of a repository-lifecycle event, which also carries its
/// full name and description.
pub struct RepoFull {
    pub full_name: String,
    pub html_url: String,
    pub description: String,
}

/// The issue of an issue event.
pub struct Issue {
    pub number: u64,
    pub title: String,
    pub body: String,
    pub html_url: String,
}

/// The issue a comment was left on.
pub struct IssueRef {
    pub number: u64,
    pub html_url: String,
}

/// A comment on an issue.
pub struct Comment {
    pub body: String,
}

/// One commit of a push.
pub struct Commit {
    pub message: String,
    pub url: String,
}

/// The payload of an issue event.
pub struct IssuePayload {
    pub action: String,
    pub issue: Issue,
    pub repository: Repo,
    pub assignee: Option<User>,
    pub label: Option<Label>,
    pub sender: User,
}

/// The payload of an issue-comment event.
pub struct CommentIssuePayload {
    pub action: String,
    pub issue: IssueRef,
    pub comment: Comment,
    pub repository: Repo,
    pub sender: User,
}

/// The payload of a push event.
pub struct PushPayload {
    pub action: String,
    pub commits: Vec<Commit>,
    pub repository: Repo,
    pub sender: User,
}

/// The payload of a repository-lifecycle event.
pub struct RepositoryPayload {
    pub action: String,
    pub repository: RepoFull,
    pub sender: User,
}

} // verus!
