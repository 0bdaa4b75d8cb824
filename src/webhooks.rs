//! Webhook payloads of the two trackers, and their lowering into events.
//!
//! Payloads arrive here already decoded; this module decides which event, if
//! any, each one becomes, and which ones are refused.
use vstd::prelude::*;
use crate::errors::ApiError;
use crate::events::{
    action_name, qualified_id, source_prefix, Action, CommentData, EventData, IssueData,
    RepositoryData, Source,
};
use crate::guard::{admit_spec, IndexationGuard};
use crate::text::{decimal_of, i64_to_string};

verus! {

#[derive(Clone, Copy, Debug, PartialEq, Eq, Structural)]
pub enum CommentActionType {
    Created,
    Deleted,
    Edited,
}

#[derive(Clone, Copy, Debug, PartialEq, Eq, Structural)]
pub enum IssueActionType {
    Opened,
    Edited,
    Deleted,
    /// Any other action; such webhooks are acknowledged and dropped.
    Ignored,
}

pub open spec fn comment_action(a: CommentActionType) -> Action {
    match a {
        CommentActionType::Created => Action::Created,
        CommentActionType::Edited => Action::Edited,
        CommentActionType::Deleted => Action::Deleted,
    }
}

pub open spec fn issue_action(a: IssueActionType) -> Action
    recommends
        !(a is Ignored),
{
    match a {
        IssueActionType::Opened => Action::Created,
        IssueActionType::Edited => Action::Edited,
        _ => Action::Deleted,
    }
}

impl CommentActionType {
    pub fn to_action(&self) -> (r: Action)
        ensures
            r == comment_action(*self),
    {
        match self {
            CommentActionType::Created => Action::Created,
            CommentActionType::Edited => Action::Edited,
            CommentActionType::Deleted => Action::Deleted,
        }
    }

    /// The action as the tracker spells it.
    pub fn name(&self) -> (r: &'static str)
        ensures
            r@ == (match *self {
                CommentActionType::Created => "created"@,
                CommentActionType::Deleted => "deleted"@,
                CommentActionType::Edited => "edited"@,
            }),
    {
        match self {
            CommentActionType::Created => "created",
            CommentActionType::Deleted => "deleted",
            CommentActionType::Edited => "edited",
        }
    }
}

impl IssueActionType {
    /// Only the actions the bot acts on have an event action.
    pub fn to_action(&self) -> (r: Action)
        requires
            !(*self is Ignored),
        ensures
            r == issue_action(*self),
    {
        match self {
            IssueActionType::Opened => Action::Created,
            IssueActionType::Edited => Action::Edited,
            _ => Action::Deleted,
        }
    }

    /// The action as the tracker spells it.
    pub fn name(&self) -> (r: &'static str)
        ensures
            r@ == (match *self {
                IssueActionType::Opened => "opened"@,
                IssueActionType::Edited => "edited"@,
                IssueActionType::Deleted => "deleted"@,
                IssueActionType::Ignored => "ignored"@,
            }),
    {
        match self {
            IssueActionType::Opened => "opened",
            IssueActionType::Edited => "edited",
            IssueActionType::Deleted => "deleted",
            IssueActionType::Ignored => "ignored",
        }
    }
}

#[derive(Clone, Debug)]
pub struct GithubComment {
    pub body: String,
    pub id: i64,
    pub url: String,
}

#[derive(Clone, Debug)]
pub struct PullRequest {
    pub html_url: String,
    pub url: String,
}

#[derive(Clone, Debug)]
pub struct GithubIssue {
    pub body: String,
    pub html_url: String,
    pub id: i64,
    pub number: i32,
    pub pull_request: Option<PullRequest>,
    pub title: String,
    pub url: String,
}

#[derive(Clone, Debug)]
pub struct Repository {
    pub full_name: String,
}

#[derive(Clone, Debug)]
pub struct IssueWebhook {
    pub action: IssueActionType,
    pub issue: GithubIssue,
    pub repository: Repository,
}

/// Issue and pull-request comments.
#[derive(Clone, Debug)]
pub struct IssueCommentWebhook {
    pub action: CommentActionType,
    pub comment: GithubComment,
    pub issue: GithubIssue,
    pub repository: Repository,
}

#[derive(Clone, Debug)]
pub enum GithubWebhook {
    IssueComment(IssueCommentWebhook),
    Issue(IssueWebhook),
}

impl GithubWebhook {
    pub fn name(&self) -> (r: &'static str)
        ensures
            r@ == (match *self {
                GithubWebhook::Issue(_) => "issue"@,
                GithubWebhook::IssueComment(_) => "issue comment"@,
            }),
    {
        match self {
            GithubWebhook::Issue(_) => "issue",
            GithubWebhook::IssueComment(_) => "issue comment",
        }
    }
}

/// Storage key of an object of the code-hosting tracker.
pub open spec fn github_key(id: i64) -> Seq<char> {
    source_prefix(Source::Github) + decimal_of(id as int)
}

fn github_id(id: i64) -> (r: String)
    ensures
        r@ == github_key(id),
{
    let raw = i64_to_string(id);
    qualified_id(Source::Github, raw.as_str())
}

/// The issue event that an issue webhook of the code-hosting tracker becomes.
pub open spec fn github_issue_event(d: IssueData, w: IssueWebhook) -> bool {
    &&& d.source_id@ == github_key(w.issue.id)
    &&& d.action == issue_action(w.action)
    &&& d.title@ == w.issue.title@
    &&& d.body@ == w.issue.body@
    &&& d.is_pull_request == w.issue.pull_request is Some
    &&& d.number == w.issue.number
    &&& d.html_url@ == w.issue.html_url@
    &&& d.url@ == w.issue.url@
    &&& d.repository_full_name@ == w.repository.full_name@
    &&& d.source == Source::Github
}

/// The comment event that a comment webhook of the code-hosting tracker becomes.
pub open spec fn github_comment_event(c: CommentData, w: IssueCommentWebhook) -> bool {
    &&& c.source_id@ == github_key(w.comment.id)
    &&& c.action == comment_action(w.action)
    &&& c.issue_id@ == github_key(w.issue.id)
    &&& c.body@ == w.comment.body@
    &&& c.url@ == w.comment.url@
}

pub open spec fn webhook_repository(w: GithubWebhook) -> Seq<char> {
    match w {
        GithubWebhook::Issue(i) => i.repository.full_name@,
        GithubWebhook::IssueComment(c) => c.repository.full_name@,
    }
}

/// Lowers a code-hosting webhook into an event.
///
/// A webhook for a repository under indexation is refused, so that it cannot
/// race the crawl; an issue action the bot does not act on yields no event.
pub fn github_webhook(webhook: GithubWebhook, ongoing: &IndexationGuard) -> (r: Result<Option<EventData>, ApiError>)
    ensures
        ongoing.view().contains(webhook_repository(webhook)) <==> r is Err,
        r matches Err(e) ==> e is IndexationInProgress,
        r matches Ok(ev) ==> match webhook {
            GithubWebhook::Issue(w) => if w.action is Ignored {
                ev is None
            } else {
                ev matches Some(EventData::Issue(d)) && github_issue_event(d, w)
            },
            GithubWebhook::IssueComment(w) => ev matches Some(EventData::Comment(c)) && github_comment_event(c, w),
        },
{
    match webhook {
        GithubWebhook::Issue(w) => {
            if ongoing.contains(w.repository.full_name.as_str()) {
                return Err(ApiError::IndexationInProgress);
            }
            if matches!(w.action, IssueActionType::Ignored) {
                return Ok(None);
            }
            let d = IssueData {
                source_id: github_id(w.issue.id),
                action: w.action.to_action(),
                title: w.issue.title,
                body: w.issue.body,
                is_pull_request: w.issue.pull_request.is_some(),
                number: w.issue.number,
                html_url: w.issue.html_url,
                url: w.issue.url,
                repository_full_name: w.repository.full_name,
                source: Source::Github,
            };
            Ok(Some(EventData::Issue(d)))
        },
        GithubWebhook::IssueComment(w) => {
            if ongoing.contains(w.repository.full_name.as_str()) {
                return Err(ApiError::IndexationInProgress);
            }
            let c = CommentData {
                source_id: github_id(w.comment.id),
                action: w.action.to_action(),
                issue_id: github_id(w.issue.id),
                body: w.comment.body,
                url: w.comment.url,
            };
            Ok(Some(EventData::Comment(c)))
        },
    }
}

/// Admits a request to index a repository, at once, unless an indexation of
/// it is admitted or running: a conflict is answered to the caller and never
/// queued. The job that the event leads to starts under the admitted name.
pub fn index_repository(repo: RepositoryData, ongoing: &mut IndexationGuard) -> (r: Result<EventData, ApiError>)
    ensures
        (final(ongoing).admitted(), final(ongoing).running(), r is Ok)
            == admit_spec(old(ongoing).admitted(), old(ongoing).running(), repo.full_name@),
        r matches Err(e) ==> e is IndexationInProgress,
        r matches Ok(ev) ==> ev matches EventData::RepositoryIndexation(x) && x.full_name@ == repo.full_name@
            && x.source == repo.source,
{
    if !ongoing.try_admit(repo.full_name.as_str()) {
        return Err(ApiError::IndexationInProgress);
    }
    Ok(EventData::RepositoryIndexation(repo))
}

#[derive(Clone, Copy, Debug, PartialEq, Eq, Structural)]
pub enum HfAction {
    Create,
    Update,
    Delete,
}

#[derive(Clone, Copy, Debug, PartialEq, Eq, Structural)]
pub enum Scope {
    Discussion,
    DiscussionComment,
}

pub open spec fn hf_action(a: HfAction) -> Action {
    match a {
        HfAction::Create => Action::Created,
        HfAction::Update => Action::Edited,
        HfAction::Delete => Action::Deleted,
    }
}

pub open spec fn hf_action_name(a: HfAction) -> Seq<char> {
    match a {
        HfAction::Create => "create"@,
        HfAction::Update => "update"@,
        HfAction::Delete => "delete"@,
    }
}

pub open spec fn scope_name(s: Scope) -> Seq<char> {
    match s {
        Scope::Discussion => "discussion"@,
        Scope::DiscussionComment => "discussion.comment"@,
    }
}

impl HfAction {
    pub fn to_action(&self) -> (r: Action)
        ensures
            r == hf_action(*self),
    {
        match self {
            HfAction::Create => Action::Created,
            HfAction::Update => Action::Edited,
            HfAction::Delete => Action::Deleted,
        }
    }

    pub fn name(&self) -> (r: &'static str)
        ensures
            r@ == hf_action_name(*self),
    {
        match self {
            HfAction::Create => "create",
            HfAction::Update => "update",
            HfAction::Delete => "delete",
        }
    }
}

impl Scope {
    pub fn name(&self) -> (r: &'static str)
        ensures
            r@ == scope_name(*self),
    {
        match self {
            Scope::Discussion => "discussion",
            Scope::DiscussionComment => "discussion.comment",
        }
    }
}

#[derive(Clone, Copy, Debug)]
pub struct HfEvent {
    pub action: HfAction,
    pub scope: Scope,
}

#[derive(Clone, Debug)]
pub struct Url {
    pub web: String,
    pub api: String,
}

#[derive(Clone, Debug)]
pub struct Discussion {
    pub id: String,
    pub is_pull_request: bool,
    pub num: i32,
    pub title: String,
    pub url: Url,
}

#[derive(Clone, Debug)]
pub struct WebUrl {
    pub web: String,
}

#[derive(Clone, Debug)]
pub struct Author {
    pub id: String,
}

#[derive(Clone, Debug)]
pub struct HfComment {
    pub id: String,
    pub content: String,
    pub author: Author,
    pub url: WebUrl,
}

#[derive(Clone, Debug)]
pub struct HuggingfaceWebhook {
    pub event: HfEvent,
    pub discussion: Option<Discussion>,
    pub comment: Option<HfComment>,
}

/// Account of the bot on the model hub; its own comments are not events.
pub open spec fn bot_author_id() -> Seq<char> {
    "67e0825265e294ad98833748"@
}

/// Message of a webhook that lacks a part its scope needs.
pub open spec fn missing_message(part: Seq<char>, e: HfEvent) -> Seq<char> {
    "Missing "@ + part + " when event.scope = \""@ + scope_name(e.scope) + "\" and event.action = \""@
        + hf_action_name(e.action) + "\""@
}

fn missing(part: &str, e: HfEvent) -> (r: ApiError)
    ensures
        r matches ApiError::MalformedWebhook(m) && m@ == missing_message(part@, e),
{
    let mut m = String::from_str("Missing ");
    m.append(part);
    m.append(" when event.scope = \"");
    m.append(e.scope.name());
    m.append("\" and event.action = \"");
    m.append(e.action.name());
    m.append("\"");
    ApiError::MalformedWebhook(m)
}

/// The issue event that a discussion webhook becomes; the body is the
/// content of the comment that opened it, if the payload carries one. The
/// payload names no repository, so the event's repository is not stated here
/// (the lowering leaves it empty).
pub open spec fn hf_issue_event(d: IssueData, w: HuggingfaceWebhook) -> bool {
    w.discussion matches Some(disc) && {
        &&& d.source_id@ == source_prefix(Source::HuggingFace) + disc.id@
        &&& d.action == hf_action(w.event.action)
        &&& d.title@ == disc.title@
        &&& d.body@ == (match w.comment {
            Some(c) => c.content@,
            None => Seq::empty(),
        })
        &&& d.is_pull_request == disc.is_pull_request
        &&& d.number == disc.num
        &&& d.html_url@ == disc.url.web@
        &&& d.url@ == disc.url.api@
        &&& d.source == Source::HuggingFace
    }
}

/// The comment event that a discussion-comment webhook becomes.
pub open spec fn hf_comment_event(c: CommentData, w: HuggingfaceWebhook) -> bool {
    w.discussion matches Some(disc) && w.comment matches Some(com) && {
        &&& c.source_id@ == source_prefix(Source::HuggingFace) + com.id@
        &&& c.action == hf_action(w.event.action)
        &&& c.issue_id@ == source_prefix(Source::HuggingFace) + disc.id@
        &&& c.body@ == com.content@
        &&& c.url@ == com.url.web@
    }
}

/// Lowers a model-hub webhook into an event; comments written by the bot
/// itself yield none.
pub fn huggingface_webhook(webhook: HuggingfaceWebhook) -> (r: Result<Option<EventData>, ApiError>)
    ensures
        webhook.discussion is None ==> (r matches Err(ApiError::MalformedWebhook(m))
            && m@ == missing_message("discussion"@, webhook.event)),
        webhook.discussion is Some && webhook.event.scope is DiscussionComment && webhook.comment is None
            ==> (r matches Err(ApiError::MalformedWebhook(m)) && m@ == missing_message("comment"@, webhook.event)),
        webhook.discussion is Some && webhook.event.scope is Discussion
            ==> (r matches Ok(Some(EventData::Issue(d))) && hf_issue_event(d, webhook)),
        webhook.discussion is Some && webhook.event.scope is DiscussionComment ==> (webhook.comment matches Some(com)
            ==> if com.author.id@ == bot_author_id() {
                r matches Ok(None)
            } else {
                r matches Ok(Some(EventData::Comment(c))) && hf_comment_event(c, webhook)
            }),
{
    let HuggingfaceWebhook { event, discussion, comment } = webhook;
    let discussion = match discussion {
        Some(d) => d,
        None => {
            return Err(missing("discussion", event));
        },
    };
    match event.scope {
        Scope::Discussion => {
            let body = match comment {
                Some(c) => c.content,
                None => String::new(),
            };
            let d = IssueData {
                source_id: qualified_id(Source::HuggingFace, discussion.id.as_str()),
                action: event.action.to_action(),
                title: discussion.title,
                body,
                is_pull_request: discussion.is_pull_request,
                number: discussion.num,
                html_url: discussion.url.web,
                url: discussion.url.api,
                repository_full_name: String::new(),
                source: Source::HuggingFace,
            };
            Ok(Some(EventData::Issue(d)))
        },
        Scope::DiscussionComment => {
            let comment = match comment {
                Some(c) => c,
                None => {
                    return Err(missing("comment", event));
                },
            };
            if comment.author.id == String::from_str("67e0825265e294ad98833748") {
                return Ok(None);
            }
            let c = CommentData {
                source_id: qualified_id(Source::HuggingFace, comment.id.as_str()),
                action: event.action.to_action(),
                issue_id: qualified_id(Source::HuggingFace, discussion.id.as_str()),
                body: comment.content,
                url: comment.url.web,
            };
            Ok(Some(EventData::Comment(c)))
        },
    }
}

} // verus!
