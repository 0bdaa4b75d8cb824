//! The storage collaborator: the operations the pipeline asks of it, and what
//! each does to the tables, stated over a mathematical model of them.
use vstd::prelude::*;
use crate::events::Source;

verus! {

/// Kind of a long-running job that keeps a checkpoint.
#[derive(Clone, Copy, Debug, PartialEq, Eq, Structural)]
pub enum JobType {
    IssueIndexation,
    EmbeddingsRegeneration,
}

/// Payload of a checkpoint: the last page an indexation completed, or the
/// internal id of the last issue a regeneration processed.
#[derive(Clone, Copy, Debug, PartialEq, Eq, Structural)]
pub enum JobData {
    IssueIndexation { issues_page: i32 },
    EmbeddingsRegeneration { current_issue: i32 },
}

/// The values stored for a new issue, beside the embedding computed for it.
#[derive(Clone, Debug)]
pub struct IssueRecord {
    pub source_id: String,
    pub source: Source,
    pub title: String,
    pub body: String,
    pub is_pull_request: bool,
    pub number: i32,
    pub html_url: String,
    pub url: String,
    pub repository_full_name: String,
}

/// The values stored for a comment.
#[derive(Clone, Debug)]
pub struct CommentRecord {
    pub source_id: String,
    pub body: String,
    pub url: String,
}

/// One request to storage.
#[derive(Clone, Debug)]
pub enum StoreOp {
    /// Insert an issue together with the embedding just generated; refused
    /// when its key is already stored.
    InsertIssue(IssueRecord),
    /// Insert an issue with the embedding just generated unless its key is
    /// stored already, in which case the stored row is kept as it is.
    InsertIssueIfAbsent(IssueRecord),
    UpdateIssue { source_id: String, title: String, body: String, url: String },
    DeleteIssue { source_id: String },
    /// Insert one comment under the issue stored with `issue_source_id`;
    /// nothing is stored when that issue is unknown or the comment exists.
    InsertComment { issue_source_id: String, comment: CommentRecord },
    /// Bulk insert under one issue; comments already stored are left alone.
    InsertCommentsIgnoringDuplicates { issue_source_id: String, comments: Vec<CommentRecord> },
    UpdateComment { source_id: String, body: String, url: String },
    DeleteComment { source_id: String },
    /// Store a freshly generated embedding for an issue.
    SetEmbedding { source_id: String },
    /// Insert the checkpoint of a job, or overwrite the one under the same key.
    UpsertJob { repository_full_name: String, data: JobData },
    DeleteJob { repository_full_name: String, job_type: JobType },
}

/// A stored issue.
pub struct IssueRow {
    pub id: int,
    pub source: Source,
    pub title: Seq<char>,
    pub body: Seq<char>,
    pub is_pull_request: bool,
    pub number: int,
    pub html_url: Seq<char>,
    pub url: Seq<char>,
    pub repository_full_name: Seq<char>,
    pub embedded: bool,
}

/// A stored comment; `issue` is the key of the issue it belongs to.
pub struct CommentRow {
    pub body: Seq<char>,
    pub url: Seq<char>,
    pub issue: Seq<char>,
}

/// The tables, keyed by `source_id`, and the checkpoints keyed by repository
/// and job type (the regeneration checkpoint is global: its repository is
/// empty). `next_id` is the internal id the next inserted issue receives.
pub struct Db {
    pub issues: Map<Seq<char>, IssueRow>,
    pub comments: Map<Seq<char>, CommentRow>,
    pub jobs: Map<(Seq<char>, JobType), JobData>,
    pub next_id: int,
}

pub open spec fn job_type_of(d: JobData) -> JobType {
    match d {
        JobData::IssueIndexation { .. } => JobType::IssueIndexation,
        JobData::EmbeddingsRegeneration { .. } => JobType::EmbeddingsRegeneration,
    }
}

/// Key of the checkpoint that a job keeps.
pub open spec fn job_key(repository_full_name: Seq<char>, t: JobType) -> (Seq<char>, JobType) {
    match t {
        JobType::IssueIndexation => (repository_full_name, t),
        JobType::EmbeddingsRegeneration => (Seq::empty(), t),
    }
}

pub open spec fn new_issue_row(r: IssueRecord, id: int) -> IssueRow {
    IssueRow {
        id,
        source: r.source,
        title: r.title@,
        body: r.body@,
        is_pull_request: r.is_pull_request,
        number: r.number as int,
        html_url: r.html_url@,
        url: r.url@,
        repository_full_name: r.repository_full_name@,
        embedded: true,
    }
}

pub open spec fn insert_issue(db: Db, r: IssueRecord) -> Db {
    if db.issues.contains_key(r.source_id@) {
        db
    } else {
        Db {
            issues: db.issues.insert(r.source_id@, new_issue_row(r, db.next_id)),
            next_id: db.next_id + 1,
            ..db
        }
    }
}

pub open spec fn insert_comment(db: Db, issue: Seq<char>, c: CommentRecord) -> Db {
    if !db.issues.contains_key(issue) || db.comments.contains_key(c.source_id@) {
        db
    } else {
        Db {
            comments: db.comments.insert(c.source_id@, CommentRow { body: c.body@, url: c.url@, issue }),
            ..db
        }
    }
}

pub open spec fn insert_comments(db: Db, issue: Seq<char>, cs: Seq<CommentRecord>) -> Db
    decreases cs.len(),
{
    if cs.len() == 0 {
        db
    } else {
        insert_comment(insert_comments(db, issue, cs.drop_last()), issue, cs.last())
    }
}

pub open spec fn set_embedding(db: Db, key: Seq<char>) -> Db {
    if db.issues.contains_key(key) {
        Db { issues: db.issues.insert(key, IssueRow { embedded: true, ..db.issues[key] }), ..db }
    } else {
        db
    }
}

pub open spec fn upsert_job(db: Db, key: (Seq<char>, JobType), data: JobData) -> Db {
    Db { jobs: db.jobs.insert(key, data), ..db }
}

pub open spec fn delete_job(db: Db, key: (Seq<char>, JobType)) -> Db {
    Db { jobs: db.jobs.remove(key), ..db }
}

/// The checkpoint stored under a key, if any.
pub open spec fn checkpoint_of(db: Db, key: (Seq<char>, JobType)) -> Option<JobData> {
    if db.jobs.contains_key(key) {
        Some(db.jobs[key])
    } else {
        None
    }
}

/// What one operation does to the tables.
pub open spec fn apply_op(db: Db, op: StoreOp) -> Db {
    match op {
        StoreOp::InsertIssue(r) => insert_issue(db, r),
        StoreOp::InsertIssueIfAbsent(r) => insert_issue(db, r),
        StoreOp::UpdateIssue { source_id, title, body, url } => {
            if db.issues.contains_key(source_id@) {
                let row = db.issues[source_id@];
                Db {
                    issues: db.issues.insert(source_id@, IssueRow { title: title@, body: body@, url: url@, ..row }),
                    ..db
                }
            } else {
                db
            }
        },
        StoreOp::DeleteIssue { source_id } => Db { issues: db.issues.remove(source_id@), ..db },
        StoreOp::InsertComment { issue_source_id, comment } => insert_comment(db, issue_source_id@, comment),
        StoreOp::InsertCommentsIgnoringDuplicates { issue_source_id, comments } =>
            insert_comments(db, issue_source_id@, comments@),
        StoreOp::UpdateComment { source_id, body, url } => {
            if db.comments.contains_key(source_id@) {
                let row = db.comments[source_id@];
                Db {
                    comments: db.comments.insert(source_id@, CommentRow { body: body@, url: url@, ..row }),
                    ..db
                }
            } else {
                db
            }
        },
        StoreOp::DeleteComment { source_id } => Db { comments: db.comments.remove(source_id@), ..db },
        StoreOp::SetEmbedding { source_id } => set_embedding(db, source_id@),
        StoreOp::UpsertJob { repository_full_name, data } =>
            upsert_job(db, job_key(repository_full_name@, job_type_of(data)), data),
        StoreOp::DeleteJob { repository_full_name, job_type } =>
            delete_job(db, job_key(repository_full_name@, job_type)),
    }
}

} // verus!
