//! The typed events that the inbound boundary hands to the dispatcher.
use vstd::prelude::*;

verus! {

/// What happened to an issue or a comment.
#[derive(Clone, Copy, Debug, PartialEq, Eq, Structural)]
pub enum Action {
    Created,
    Edited,
    Deleted,
}

/// The tracker an issue comes from.
#[derive(Clone, Copy, Debug, PartialEq, Eq, Structural)]
pub enum Source {
    Github,
    HuggingFace,
}

pub open spec fn action_name(a: Action) -> Seq<char> {
    match a {
        Action::Created => "created"@,
        Action::Edited => "edited"@,
        Action::Deleted => "deleted"@,
    }
}

pub open spec fn source_name(s: Source) -> Seq<char> {
    match s {
        Source::Github => "Github"@,
        Source::HuggingFace => "HuggingFace"@,
    }
}

/// Prefix that qualifies a tracker's own id, so that ids of the two trackers
/// never collide in storage.
pub open spec fn source_prefix(s: Source) -> Seq<char> {
    match s {
        Source::Github => "github:"@,
        Source::HuggingFace => "huggingface:"@,
    }
}

impl Action {
    /// Lower-case name of the action, as it appears in logs.
    pub fn name(&self) -> (r: &'static str)
        ensures
            r@ == action_name(*self),
    {
        match self {
            Action::Created => "created",
            Action::Edited => "edited",
            Action::Deleted => "deleted",
        }
    }
}

impl Source {
    /// Name of the tracker, as stored in the `source` column.
    pub fn name(&self) -> (r: &'static str)
        ensures
            r@ == source_name(*self),
    {
        match self {
            Source::Github => "Github",
            Source::HuggingFace => "HuggingFace",
        }
    }
}

/// Storage key of an issue or comment: the tracker's prefix, then its own id.
pub fn qualified_id(source: Source, raw: &str) -> (r: String)
    ensures
        r@ == source_prefix(source) + raw@,
{
    let mut r = match source {
        Source::Github => String::from_str("github:"),
        Source::HuggingFace => String::from_str("huggingface:"),
    };
    r.append(raw);
    r
}

/// An issue (or discussion) was created, edited or deleted.
#[derive(Clone, Debug)]
pub struct IssueData {
    pub source_id: String,
    pub action: Action,
    pub title: String,
    pub body: String,
    pub is_pull_request: bool,
    pub number: i32,
    pub html_url: String,
    pub url: String,
    pub repository_full_name: String,
    pub source: Source,
}

/// A comment was created, edited or deleted; `issue_id` is the storage key of
/// the issue it belongs to.
#[derive(Clone, Debug)]
pub struct CommentData {
    pub source_id: String,
    pub action: Action,
    pub issue_id: String,
    pub body: String,
    pub url: String,
}

/// Request to fetch one issue of a repository and index it.
#[derive(Clone, Debug)]
pub struct IndexIssueData {
    pub issue_number: i32,
    pub repository_full_name: String,
}

/// A repository of a tracker.
#[derive(Clone, Debug)]
pub struct RepositoryData {
    pub full_name: String,
    pub source: Source,
}

impl RepositoryData {
    /// Describes the repository as `<source> repo '<full name>'`.
    pub fn describe(&self) -> (r: String)
        ensures
            r@ == source_name(self.source) + " repo '"@ + self.full_name@ + "'"@,
    {
        let mut r = String::from_str(self.source.name());
        r.append(" repo '");
        r.append(self.full_name.as_str());
        r.append("'");
        r
    }
}

/// One unit of work for the dispatcher.
#[derive(Clone, Debug)]
pub enum EventData {
    Issue(IssueData),
    Comment(CommentData),
    IssueIndexation(IndexIssueData),
    RepositoryIndexation(RepositoryData),
    RegenerateEmbeddings,
}

} // verus!
