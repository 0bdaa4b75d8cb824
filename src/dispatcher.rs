//! The per-event decisions of the consumer loop.
//!
//! The loop takes one event at a time and drives an [`EventTask`]: the task
//! names a command, the loop performs it and reports what happened, and the
//! task names the next command, until it says `Finish`. Issue and comment
//! events are handled inline; indexation and regeneration are handed off as
//! detached jobs.
use vstd::prelude::*;
use crate::events::{Action, EventData, IndexIssueData, IssueData, RepositoryData, Source};
use crate::notify::{
    chat_message, chat_message_spec, comment_list, comment_list_spec, thread_message,
    thread_message_spec, ClosestIssue,
};
use crate::store::{apply_op, CommentRecord, Db, IssueRecord, StoreOp};
use crate::text::{issue_text, issue_text_spec};

verus! {

/// How many of the nearest issues a new issue is announced with.
pub const CLOSEST_ISSUES: usize = 3;

/// What the loop reports after performing a command.
#[derive(Debug)]
pub enum Report {
    /// The command was carried out.
    Done,
    /// The command failed; the failure has been logged.
    Failed,
    /// An embedding was generated; the loop keeps it for the next commands.
    Embedded,
    /// The issues nearest to the last embedding.
    ClosestIssues(Vec<ClosestIssue>),
    /// The summary of the issue's text.
    Summary(String),
    /// The row that the command needed does not exist.
    NotFound,
}

/// What the loop is asked to do next.
#[derive(Debug)]
pub enum Command {
    /// Generate the embedding of a text.
    GenerateEmbedding(String),
    /// Query the `limit` stored issues nearest to the last embedding.
    FindClosestIssues { limit: usize },
    /// Summarize a text.
    Summarize(String),
    /// Post `message` to the chat, then `thread` as a reply to it.
    NotifySlack { message: String, thread: String },
    /// Comment on the issue at `issue_url` of `source`, listing related issues.
    PostComment { source: Source, issue_url: String, issue_list: String },
    /// Perform a storage operation; `InsertIssue` stores the last embedding.
    Store(StoreOp),
    /// Rebuild the text of the stored issue from its title, body and comments,
    /// embed it again and store the new embedding.
    ReindexIssue(String),
    /// Fetch one issue from its tracker and index it, blocking the loop.
    IndexSingleIssue(IndexIssueData),
    /// Start a detached indexation job for a repository.
    SpawnIndexation(RepositoryData),
    /// Start a detached embeddings regeneration job.
    SpawnRegeneration,
    /// The event (or the item of a job) is handled.
    Finish,
    /// Stop the job that this item belongs to; its checkpoint stays.
    AbortJob,
}

#[derive(Clone, Copy, Debug, PartialEq, Eq, Structural)]
pub enum Stage {
    Embed,
    FindClosest,
    Summarize,
    Notify,
    Comment,
    Insert,
    UpdateIssue,
    DeleteIssue,
    InsertComment,
    UpdateComment,
    DeleteComment,
    Reindex,
    IndexIssue,
    SpawnIndexation,
    SpawnRegeneration,
    Finished,
}

/// The handling of one event, between two commands.
pub struct EventTask {
    pub event: EventData,
    pub stage: Stage,
    pub closest: Vec<ClosestIssue>,
    pub summary: String,
}

pub open spec fn initial_stage(e: EventData) -> Stage {
    match e {
        EventData::Issue(i) => match i.action {
            Action::Created => Stage::Embed,
            Action::Edited => Stage::UpdateIssue,
            Action::Deleted => Stage::DeleteIssue,
        },
        EventData::Comment(c) => match c.action {
            Action::Created => Stage::InsertComment,
            Action::Edited => Stage::UpdateComment,
            Action::Deleted => Stage::DeleteComment,
        },
        EventData::IssueIndexation(_) => Stage::IndexIssue,
        EventData::RepositoryIndexation(_) => Stage::SpawnIndexation,
        EventData::RegenerateEmbeddings => Stage::SpawnRegeneration,
    }
}

pub open spec fn is_pull_request(e: EventData) -> bool {
    match e {
        EventData::Issue(i) => i.is_pull_request,
        _ => false,
    }
}

/// Once notifications are over (or skipped), pull requests get no comment.
pub open spec fn after_notifications(pr: bool) -> Stage {
    if pr {
        Stage::Insert
    } else {
        Stage::Comment
    }
}

/// The stage that follows `s` once the loop reports `r`.
///
/// A failed embedding drops the event; failures of the nearest-issue query
/// and of the summarizer only skip the notifications that need them, so the
/// issue is still stored.
pub open spec fn next_stage(s: Stage, r: Report, pr: bool) -> Stage {
    match s {
        Stage::Embed => if r is Embedded {
            Stage::FindClosest
        } else {
            Stage::Finished
        },
        Stage::FindClosest => if r is ClosestIssues {
            Stage::Summarize
        } else {
            Stage::Insert
        },
        Stage::Summarize => if r is Summary {
            Stage::Notify
        } else {
            after_notifications(pr)
        },
        Stage::Notify => after_notifications(pr),
        Stage::Comment => Stage::Insert,
        Stage::UpdateIssue => Stage::Reindex,
        Stage::InsertComment => if r is NotFound {
            Stage::Finished
        } else {
            Stage::Reindex
        },
        Stage::UpdateComment => Stage::Reindex,
        Stage::DeleteComment => Stage::Reindex,
        _ => Stage::Finished,
    }
}

/// The text embedded for a new issue: its title and body.
pub open spec fn created_text(i: IssueData) -> Seq<char> {
    issue_text_spec(i.title@, i.body@, Seq::empty())
}

/// The values stored for a new issue are the event's own.
pub open spec fn record_of(r: IssueRecord, i: IssueData) -> bool {
    &&& r.source_id@ == i.source_id@
    &&& r.source == i.source
    &&& r.title@ == i.title@
    &&& r.body@ == i.body@
    &&& r.is_pull_request == i.is_pull_request
    &&& r.number == i.number
    &&& r.html_url@ == i.html_url@
    &&& r.url@ == i.url@
    &&& r.repository_full_name@ == i.repository_full_name@
}

/// The key of the issue that is embedded again after an event.
pub open spec fn reindexed_issue(e: EventData) -> Seq<char> {
    match e {
        EventData::Issue(i) => i.source_id@,
        EventData::Comment(c) => c.issue_id@,
        _ => Seq::empty(),
    }
}

/// The command that a task names in its current stage.
pub open spec fn command_spec(t: EventTask, cmd: Command) -> bool {
    match (t.stage, t.event) {
        (Stage::Embed, EventData::Issue(i)) => cmd matches Command::GenerateEmbedding(x) && x@ == created_text(i),
        (Stage::FindClosest, EventData::Issue(_)) => cmd == (Command::FindClosestIssues { limit: CLOSEST_ISSUES }),
        (Stage::Summarize, EventData::Issue(i)) => cmd matches Command::Summarize(x) && x@ == created_text(i),
        (Stage::Notify, EventData::Issue(i)) => cmd matches Command::NotifySlack { message, thread }
            && message@ == chat_message_spec(t.summary@, i.html_url@, i.number as int, t.closest@)
            && thread@ == thread_message_spec(i.title@, i.body@),
        (Stage::Comment, EventData::Issue(i)) => cmd matches Command::PostComment { source, issue_url, issue_list }
            && source == i.source && issue_url@ == i.url@ && issue_list@ == comment_list_spec(t.closest@),
        (Stage::Insert, EventData::Issue(i)) => cmd matches Command::Store(StoreOp::InsertIssue(r)) && record_of(r, i),
        (Stage::UpdateIssue, EventData::Issue(i)) => cmd matches Command::Store(StoreOp::UpdateIssue { source_id, title, body, url })
            && source_id@ == i.source_id@ && title@ == i.title@ && body@ == i.body@ && url@ == i.url@,
        (Stage::DeleteIssue, EventData::Issue(i)) => cmd matches Command::Store(StoreOp::DeleteIssue { source_id })
            && source_id@ == i.source_id@,
        (Stage::InsertComment, EventData::Comment(c)) => cmd matches Command::Store(StoreOp::InsertComment { issue_source_id, comment })
            && issue_source_id@ == c.issue_id@ && comment.source_id@ == c.source_id@ && comment.body@ == c.body@
            && comment.url@ == c.url@,
        (Stage::UpdateComment, EventData::Comment(c)) => cmd matches Command::Store(StoreOp::UpdateComment { source_id, body, url })
            && source_id@ == c.source_id@ && body@ == c.body@ && url@ == c.url@,
        (Stage::DeleteComment, EventData::Comment(c)) => cmd matches Command::Store(StoreOp::DeleteComment { source_id })
            && source_id@ == c.source_id@,
        (Stage::Reindex, EventData::Issue(_)) => cmd matches Command::ReindexIssue(x) && x@ == reindexed_issue(t.event),
        (Stage::Reindex, EventData::Comment(_)) => cmd matches Command::ReindexIssue(x) && x@ == reindexed_issue(t.event),
        (Stage::IndexIssue, EventData::IssueIndexation(d)) => cmd matches Command::IndexSingleIssue(x)
            && x.issue_number == d.issue_number && x.repository_full_name@ == d.repository_full_name@,
        (Stage::SpawnIndexation, EventData::RepositoryIndexation(d)) => cmd matches Command::SpawnIndexation(x)
            && x.full_name@ == d.full_name@ && x.source == d.source,
        (Stage::SpawnRegeneration, EventData::RegenerateEmbeddings) => cmd is SpawnRegeneration,
        _ => cmd is Finish,
    }
}

/// Number of commands a task in stage `s` may still name before it finishes.
pub open spec fn remaining_steps(s: Stage) -> nat {
    match s {
        Stage::Embed => 6,
        Stage::FindClosest => 5,
        Stage::Summarize => 4,
        Stage::Notify => 3,
        Stage::Comment => 2,
        Stage::UpdateIssue | Stage::InsertComment | Stage::UpdateComment | Stage::DeleteComment => 2,
        Stage::Finished => 0,
        _ => 1,
    }
}

/// Whatever the loop reports, every stage but the last moves strictly closer
/// to `Finished`: no event keeps the loop busy for more than seven commands.
pub proof fn lemma_every_event_finishes(s: Stage, r: Report, pr: bool)
    ensures
        s != Stage::Finished ==> remaining_steps(next_stage(s, r, pr)) < remaining_steps(s),
        s == Stage::Finished ==> next_stage(s, r, pr) == Stage::Finished,
        remaining_steps(s) <= 6,
{
}

/// An issue reported as created ends up stored under its key with an
/// embedding, and the storage step is reached only once an embedding was
/// generated; a later edit of the same issue changes its title, body and url
/// in place and adds no second row.
pub proof fn lemma_created_then_edited(
    db: Db,
    created: EventTask,
    insert: Command,
    edited: EventTask,
    update: Command,
    r: Report,
)
    requires
        created.event matches EventData::Issue(i) && i.action == Action::Created
            && !db.issues.contains_key(i.source_id@),
        created.stage == Stage::Insert,
        command_spec(created, insert),
        edited.event matches EventData::Issue(e) && e.action == Action::Edited
            && e.source_id@ == reindexed_issue(created.event),
        edited.stage == Stage::UpdateIssue,
        command_spec(edited, update),
    ensures
        next_stage(Stage::Embed, r, is_pull_request(created.event)) != Stage::Finished ==> r is Embedded,
        insert matches Command::Store(op1) && update matches Command::Store(op2) && ({
            let key = reindexed_issue(created.event);
            let db1 = apply_op(db, op1);
            let db2 = apply_op(db1, op2);
            &&& db1.issues.contains_key(key)
            &&& db1.issues[key].embedded
            &&& db2.issues.dom() == db1.issues.dom()
            &&& db2.issues[key].embedded
            &&& edited.event matches EventData::Issue(e) && db2.issues[key].title == e.title@
                && db2.issues[key].body == e.body@ && db2.issues[key].url == e.url@
        }),
{
    if let (Command::Store(op1), Command::Store(op2)) = (insert, update) {
        let key = reindexed_issue(created.event);
        let db1 = apply_op(db, op1);
        let db2 = apply_op(db1, op2);
        assert(db1.issues.contains_key(key));
        assert(db2.issues.dom() =~= db1.issues.dom());
    }
}

fn record_from(i: &IssueData) -> (r: IssueRecord)
    ensures
        record_of(r, *i),
{
    IssueRecord {
        source_id: i.source_id.clone(),
        source: i.source,
        title: i.title.clone(),
        body: i.body.clone(),
        is_pull_request: i.is_pull_request,
        number: i.number,
        html_url: i.html_url.clone(),
        url: i.url.clone(),
        repository_full_name: i.repository_full_name.clone(),
    }
}

fn created_text_of(i: &IssueData) -> (r: String)
    ensures
        r@ == created_text(*i),
{
    let none: Vec<String> = Vec::new();
    let r = issue_text(i.title.as_str(), i.body.as_str(), &none);
    proof {
        assert(crate::text::views_of(none@) =~= Seq::<Seq<char>>::empty());
    }
    r
}

impl EventTask {
    /// Starts handling an event and names its first command.
    pub fn new(event: EventData) -> (r: (EventTask, Command))
        ensures
            r.0.event == event,
            r.0.stage == initial_stage(event),
            r.0.closest@.len() == 0,
            command_spec(r.0, r.1),
    {
        let stage = match &event {
            EventData::Issue(i) => match i.action {
                Action::Created => Stage::Embed,
                Action::Edited => Stage::UpdateIssue,
                Action::Deleted => Stage::DeleteIssue,
            },
            EventData::Comment(c) => match c.action {
                Action::Created => Stage::InsertComment,
                Action::Edited => Stage::UpdateComment,
                Action::Deleted => Stage::DeleteComment,
            },
            EventData::IssueIndexation(_) => Stage::IndexIssue,
            EventData::RepositoryIndexation(_) => Stage::SpawnIndexation,
            EventData::RegenerateEmbeddings => Stage::SpawnRegeneration,
        };
        let task = EventTask { event, stage, closest: Vec::new(), summary: String::new() };
        let cmd = task.command();
        (task, cmd)
    }

    /// Takes the report of the last command and names the next one.
    pub fn advance(&mut self, report: Report) -> (cmd: Command)
        ensures
            final(self).event == old(self).event,
            final(self).stage == next_stage(old(self).stage, report, is_pull_request(old(self).event)),
            report matches Report::ClosestIssues(v) ==> final(self).closest == v,
            !(report is ClosestIssues) ==> final(self).closest == old(self).closest,
            report matches Report::Summary(s) ==> final(self).summary == s,
            !(report is Summary) ==> final(self).summary == old(self).summary,
            command_spec(*final(self), cmd),
    {
        let pr = match &self.event {
            EventData::Issue(i) => i.is_pull_request,
            _ => false,
        };
        let after = if pr {
            Stage::Insert
        } else {
            Stage::Comment
        };
        let next = match self.stage {
            Stage::Embed => if matches!(report, Report::Embedded) {
                Stage::FindClosest
            } else {
                Stage::Finished
            },
            Stage::FindClosest => if matches!(report, Report::ClosestIssues(_)) {
                Stage::Summarize
            } else {
                Stage::Insert
            },
            Stage::Summarize => if matches!(report, Report::Summary(_)) {
                Stage::Notify
            } else {
                after
            },
            Stage::Notify => after,
            Stage::Comment => Stage::Insert,
            Stage::UpdateIssue => Stage::Reindex,
            Stage::InsertComment => if matches!(report, Report::NotFound) {
                Stage::Finished
            } else {
                Stage::Reindex
            },
            Stage::UpdateComment => Stage::Reindex,
            Stage::DeleteComment => Stage::Reindex,
            _ => Stage::Finished,
        };
        match report {
            Report::ClosestIssues(v) => {
                self.closest = v;
            },
            Report::Summary(s) => {
                self.summary = s;
            },
            _ => {},
        }
        self.stage = next;
        self.command()
    }

    /// The command of the current stage.
    pub fn command(&self) -> (cmd: Command)
        ensures
            command_spec(*self, cmd),
    {
        match (self.stage, &self.event) {
            (Stage::Embed, EventData::Issue(i)) => Command::GenerateEmbedding(created_text_of(i)),
            (Stage::FindClosest, EventData::Issue(_)) => Command::FindClosestIssues { limit: CLOSEST_ISSUES },
            (Stage::Summarize, EventData::Issue(i)) => Command::Summarize(created_text_of(i)),
            (Stage::Notify, EventData::Issue(i)) => Command::NotifySlack {
                message: chat_message(self.summary.as_str(), i.html_url.as_str(), i.number, &self.closest),
                thread: thread_message(i.title.as_str(), i.body.as_str()),
            },
            (Stage::Comment, EventData::Issue(i)) => Command::PostComment {
                source: i.source,
                issue_url: i.url.clone(),
                issue_list: comment_list(&self.closest),
            },
            (Stage::Insert, EventData::Issue(i)) => Command::Store(StoreOp::InsertIssue(record_from(i))),
            (Stage::UpdateIssue, EventData::Issue(i)) => Command::Store(StoreOp::UpdateIssue {
                source_id: i.source_id.clone(),
                title: i.title.clone(),
                body: i.body.clone(),
                url: i.url.clone(),
            }),
            (Stage::DeleteIssue, EventData::Issue(i)) => Command::Store(StoreOp::DeleteIssue { source_id: i.source_id.clone() }),
            (Stage::InsertComment, EventData::Comment(c)) => Command::Store(StoreOp::InsertComment {
                issue_source_id: c.issue_id.clone(),
                comment: CommentRecord { source_id: c.source_id.clone(), body: c.body.clone(), url: c.url.clone() },
            }),
            (Stage::UpdateComment, EventData::Comment(c)) => Command::Store(StoreOp::UpdateComment {
                source_id: c.source_id.clone(),
                body: c.body.clone(),
                url: c.url.clone(),
            }),
            (Stage::DeleteComment, EventData::Comment(c)) => Command::Store(StoreOp::DeleteComment { source_id: c.source_id.clone() }),
            (Stage::Reindex, EventData::Issue(i)) => Command::ReindexIssue(i.source_id.clone()),
            (Stage::Reindex, EventData::Comment(c)) => Command::ReindexIssue(c.issue_id.clone()),
            (Stage::IndexIssue, EventData::IssueIndexation(d)) => Command::IndexSingleIssue(IndexIssueData {
                issue_number: d.issue_number,
                repository_full_name: d.repository_full_name.clone(),
            }),
            (Stage::SpawnIndexation, EventData::RepositoryIndexation(d)) => Command::SpawnIndexation(RepositoryData {
                full_name: d.full_name.clone(),
                source: d.source,
            }),
            (Stage::SpawnRegeneration, EventData::RegenerateEmbeddings) => Command::SpawnRegeneration,
            _ => Command::Finish,
        }
    }
}

} // verus!
