//! The long-running, checkpointed jobs: indexation of a repository and
//! regeneration of every embedding.
use vstd::prelude::*;
use crate::crawler::{Comment, IssueWithComments};
use crate::dispatcher::{Command, Report};
use crate::events::{qualified_id, RepositoryData, Source};
use crate::guard::{start_spec, IndexationGuard};
use crate::store::{
    checkpoint_of, delete_job, insert_comment, insert_comments, job_key, set_embedding, upsert_job,
    CommentRecord, Db, IssueRecord, JobData, JobType, StoreOp,
};
use crate::text::{i64_to_string, issue_text, issue_text_spec, views_of};
use crate::webhooks::github_key;

verus! {

/// The page an indexation starts at, given its checkpoint: the page after
/// the last completed one, or the first page. None when the checkpoint is at
/// the last page there can be.
pub open spec fn resume_page(checkpoint: Option<JobData>) -> Option<i32> {
    match checkpoint {
        Some(JobData::IssueIndexation { issues_page }) => if issues_page < i32::MAX {
            Some((issues_page + 1) as i32)
        } else {
            None
        },
        _ => Some(1),
    }
}

/// Internal id after which a regeneration resumes: the last one processed,
/// or 0 on a fresh start.
pub open spec fn regeneration_start(checkpoint: Option<JobData>) -> i32 {
    match checkpoint {
        Some(JobData::EmbeddingsRegeneration { current_issue }) => current_issue,
        _ => 0,
    }
}

/// The comment bodies of an item.
pub open spec fn bodies_of(cs: Seq<Comment>) -> Seq<Seq<char>> {
    cs.map_values(|c: Comment| c.body@)
}

/// The text embedded for a crawled issue: title, body and every comment.
pub open spec fn item_text(item: IssueWithComments) -> Seq<char> {
    issue_text_spec(item.title@, item.body@, bodies_of(item.comments@))
}

pub open spec fn item_record(r: IssueRecord, repo: RepositoryData, item: IssueWithComments) -> bool {
    &&& r.source_id@ == github_key(item.id)
    &&& r.source == repo.source
    &&& r.title@ == item.title@
    &&& r.body@ == item.body@
    &&& r.is_pull_request == item.is_pull_request
    &&& r.number == item.number
    &&& r.html_url@ == item.html_url@
    &&& r.url@ == item.url@
    &&& r.repository_full_name@ == repo.full_name@
}

pub open spec fn comment_records(rs: Seq<CommentRecord>, cs: Seq<Comment>) -> bool {
    &&& rs.len() == cs.len()
    &&& forall|i: int| 0 <= i < rs.len() ==> {
        &&& (#[trigger] rs[i]).source_id@ == github_key(cs[i].id)
        &&& rs[i].body@ == cs[i].body@
        &&& rs[i].url@ == cs[i].url@
    }
}

#[derive(Clone, Copy, Debug, PartialEq, Eq, Structural)]
pub enum ItemStage {
    Embed,
    Insert,
    Comments,
    Checkpoint,
    Finished,
    Aborted,
}

/// The handling of one crawled issue. `page` is set on the last item of a
/// page: once that item is stored, the page is checkpointed.
pub struct ItemTask {
    pub repository: RepositoryData,
    pub item: IssueWithComments,
    pub page: Option<i32>,
    pub stage: ItemStage,
}

pub open spec fn after_insert(has_comments: bool, page: Option<i32>) -> ItemStage {
    if has_comments {
        ItemStage::Comments
    } else if page is Some {
        ItemStage::Checkpoint
    } else {
        ItemStage::Finished
    }
}

/// A failed embedding or issue insert skips the item; a failed comment insert
/// is only logged; a failed checkpoint write aborts the job, since losing it
/// would lose track of progress.
pub open spec fn next_item_stage(s: ItemStage, r: Report, has_comments: bool, page: Option<i32>) -> ItemStage {
    match s {
        ItemStage::Embed => if r is Embedded {
            ItemStage::Insert
        } else {
            ItemStage::Finished
        },
        ItemStage::Insert => if r is Done {
            after_insert(has_comments, page)
        } else {
            ItemStage::Finished
        },
        ItemStage::Comments => if page is Some {
            ItemStage::Checkpoint
        } else {
            ItemStage::Finished
        },
        ItemStage::Checkpoint => if r is Done {
            ItemStage::Finished
        } else {
            ItemStage::Aborted
        },
        ItemStage::Finished => ItemStage::Finished,
        ItemStage::Aborted => ItemStage::Aborted,
    }
}

pub open spec fn item_command(t: ItemTask, cmd: Command) -> bool {
    match t.stage {
        ItemStage::Embed => cmd matches Command::GenerateEmbedding(x) && x@ == item_text(t.item),
        ItemStage::Insert => cmd matches Command::Store(StoreOp::InsertIssueIfAbsent(r)) && item_record(r, t.repository, t.item),
        ItemStage::Comments => cmd matches Command::Store(StoreOp::InsertCommentsIgnoringDuplicates { issue_source_id, comments })
            && issue_source_id@ == github_key(t.item.id) && comment_records(comments@, t.item.comments@),
        ItemStage::Checkpoint => match t.page {
            Some(p) => cmd matches Command::Store(StoreOp::UpsertJob { repository_full_name, data })
                && repository_full_name@ == t.repository.full_name@ && data == JobData::IssueIndexation { issues_page: p },
            None => cmd is Finish,
        },
        ItemStage::Finished => cmd is Finish,
        ItemStage::Aborted => cmd is AbortJob,
    }
}

fn github_id(id: i64) -> (r: String)
    ensures
        r@ == github_key(id),
{
    let raw = i64_to_string(id);
    qualified_id(Source::Github, raw.as_str())
}

fn text_of(item: &IssueWithComments) -> (r: String)
    ensures
        r@ == item_text(*item),
{
    let mut bodies: Vec<String> = Vec::new();
    let mut i: usize = 0;
    while i < item.comments.len()
        invariant
            i <= item.comments@.len(),
            bodies@.len() == i,
            forall|k: int| 0 <= k < i ==> (#[trigger] bodies@[k])@ == item.comments@[k].body@,
        decreases item.comments.len() - i,
    {
        bodies.push(item.comments[i].body.clone());
        i = i + 1;
    }
    let r = issue_text(item.title.as_str(), item.body.as_str(), &bodies);
    assert(views_of(bodies@) =~= bodies_of(item.comments@));
    r
}

fn records_of(cs: &Vec<Comment>) -> (r: Vec<CommentRecord>)
    ensures
        comment_records(r@, cs@),
{
    let mut r: Vec<CommentRecord> = Vec::new();
    let mut i: usize = 0;
    while i < cs.len()
        invariant
            i <= cs@.len(),
            r@.len() == i,
            forall|k: int| 0 <= k < i ==> {
                &&& (#[trigger] r@[k]).source_id@ == github_key(cs@[k].id)
                &&& r@[k].body@ == cs@[k].body@
                &&& r@[k].url@ == cs@[k].url@
            },
        decreases cs.len() - i,
    {
        let c = &cs[i];
        r.push(CommentRecord { source_id: github_id(c.id), body: c.body.clone(), url: c.url.clone() });
        i = i + 1;
    }
    r
}

impl ItemTask {
    /// Starts handling a crawled issue of `repository`.
    pub fn new(repository: RepositoryData, item: IssueWithComments, page: Option<i32>) -> (r: (ItemTask, Command))
        ensures
            r.0.repository == repository,
            r.0.item == item,
            r.0.page == page,
            r.0.stage == ItemStage::Embed,
            item_command(r.0, r.1),
    {
        let t = ItemTask { repository, item, page, stage: ItemStage::Embed };
        let c = t.command();
        (t, c)
    }

    pub fn advance(&mut self, report: Report) -> (cmd: Command)
        ensures
            final(self).repository == old(self).repository,
            final(self).item == old(self).item,
            final(self).page == old(self).page,
            final(self).stage == next_item_stage(old(self).stage, report, old(self).item.comments@.len() > 0, old(self).page),
            item_command(*final(self), cmd),
    {
        let has_comments = self.item.comments.len() > 0;
        let has_page = self.page.is_some();
        let done = matches!(report, Report::Done);
        self.stage = match self.stage {
            ItemStage::Embed => if matches!(report, Report::Embedded) {
                ItemStage::Insert
            } else {
                ItemStage::Finished
            },
            ItemStage::Insert => if !done {
                ItemStage::Finished
            } else if has_comments {
                ItemStage::Comments
            } else if has_page {
                ItemStage::Checkpoint
            } else {
                ItemStage::Finished
            },
            ItemStage::Comments => if has_page {
                ItemStage::Checkpoint
            } else {
                ItemStage::Finished
            },
            ItemStage::Checkpoint => if done {
                ItemStage::Finished
            } else {
                ItemStage::Aborted
            },
            ItemStage::Finished => ItemStage::Finished,
            ItemStage::Aborted => ItemStage::Aborted,
        };
        self.command()
    }

    pub fn command(&self) -> (cmd: Command)
        ensures
            item_command(*self, cmd),
    {
        match self.stage {
            ItemStage::Embed => Command::GenerateEmbedding(text_of(&self.item)),
            ItemStage::Insert => Command::Store(StoreOp::InsertIssueIfAbsent(IssueRecord {
                source_id: github_id(self.item.id),
                source: self.repository.source,
                title: self.item.title.clone(),
                body: self.item.body.clone(),
                is_pull_request: self.item.is_pull_request,
                number: self.item.number,
                html_url: self.item.html_url.clone(),
                url: self.item.url.clone(),
                repository_full_name: self.repository.full_name.clone(),
            })),
            ItemStage::Comments => Command::Store(StoreOp::InsertCommentsIgnoringDuplicates {
                issue_source_id: github_id(self.item.id),
                comments: records_of(&self.item.comments),
            }),
            ItemStage::Checkpoint => match self.page {
                Some(p) => Command::Store(StoreOp::UpsertJob {
                    repository_full_name: self.repository.full_name.clone(),
                    data: JobData::IssueIndexation { issues_page: p },
                }),
                None => Command::Finish,
            },
            ItemStage::Finished => Command::Finish,
            ItemStage::Aborted => Command::AbortJob,
        }
    }
}

/// An accepted indexation of one repository.
pub struct IndexationJob {
    pub repository: RepositoryData,
}

impl IndexationJob {
    /// Starts the indexation of a repository under the guard: None, and no
    /// job, when a job already runs under its name; otherwise the name is
    /// running from now on (its admission, if any, is used up).
    pub fn start(guard: &mut IndexationGuard, repository: RepositoryData) -> (r: Option<IndexationJob>)
        ensures
            (final(guard).admitted(), final(guard).running(), r is Some)
                == start_spec(old(guard).admitted(), old(guard).running(), repository.full_name@),
            r matches Some(j) ==> j.repository == repository,
    {
        if guard.try_start(repository.full_name.as_str()) {
            Some(IndexationJob { repository })
        } else {
            None
        }
    }

    /// The page to crawl first, from the repository's stored checkpoint.
    pub fn first_page(checkpoint: Option<JobData>) -> (r: Option<i32>)
        ensures
            r == resume_page(checkpoint),
    {
        match checkpoint {
            Some(JobData::IssueIndexation { issues_page }) => if issues_page < i32::MAX {
                Some(issues_page + 1)
            } else {
                None
            },
            _ => Some(1),
        }
    }

    /// Starts handling one crawled issue of this job.
    pub fn item(&self, item: IssueWithComments, page: Option<i32>) -> (r: (ItemTask, Command))
        ensures
            r.0.repository.full_name@ == self.repository.full_name@,
            r.0.repository.source == self.repository.source,
            r.0.item == item,
            r.0.page == page,
            r.0.stage == ItemStage::Embed,
            item_command(r.0, r.1),
    {
        let repository = RepositoryData { full_name: self.repository.full_name.clone(), source: self.repository.source };
        ItemTask::new(repository, item, page)
    }

    /// Ends the job and releases the guard. A job that ran to the end of the
    /// crawl deletes its checkpoint; an aborted one keeps it, so that the
    /// next request resumes where it stopped.
    pub fn finish(self, guard: &mut IndexationGuard, completed: bool) -> (r: Option<StoreOp>)
        ensures
            final(guard).admitted() == old(guard).admitted().remove(self.repository.full_name@),
            final(guard).running() == old(guard).running().remove(self.repository.full_name@),
            completed ==> (r matches Some(StoreOp::DeleteJob { repository_full_name, job_type })
                && repository_full_name@ == self.repository.full_name@ && job_type == JobType::IssueIndexation),
            !completed ==> r is None,
    {
        guard.release(self.repository.full_name.as_str());
        if completed {
            Some(StoreOp::DeleteJob { repository_full_name: self.repository.full_name, job_type: JobType::IssueIndexation })
        } else {
            None
        }
    }
}

/// Position of the first selected row, from `i` on, whose internal id is
/// above `last`; the number of rows when there is none.
pub open spec fn first_above(rows: Seq<(i32, String)>, i: int, last: i32) -> int
    decreases rows.len() - i,
{
    if i < 0 || i >= rows.len() {
        rows.len() as int
    } else if rows[i].0 > last {
        i
    } else {
        first_above(rows, i + 1, last)
    }
}

proof fn lemma_first_above(rows: Seq<(i32, String)>, i: int, last: i32)
    requires
        0 <= i <= rows.len(),
    ensures
        i <= first_above(rows, i, last) <= rows.len(),
        first_above(rows, i, last) < rows.len() ==> rows[first_above(rows, i, last)].0 > last,
        forall|k: int| i <= k < first_above(rows, i, last) ==> rows[k].0 <= last,
    decreases rows.len() - i,
{
    if i < rows.len() && rows[i].0 <= last {
        lemma_first_above(rows, i + 1, last);
    }
}

#[derive(Clone, Copy, Debug, PartialEq, Eq, Structural)]
pub enum RegenerationStage {
    Reindex,
    Checkpoint,
    Finish,
    Finished,
    Aborted,
}

/// A regeneration of every stored embedding, resumable after the last
/// processed internal id.
///
/// `rows` are the issues selected after the checkpoint, as (internal id,
/// storage key), ascending by id. Rows are handled one at a time: the issue is
/// embedded again, then the checkpoint moves to its id. A row whose id is not
/// above the checkpoint is passed over, so the checkpoint only increases.
pub struct RegenerationJob {
    pub last: i32,
    pub rows: Vec<(i32, String)>,
    pub index: usize,
    pub stage: RegenerationStage,
}

pub open spec fn stage_at(rows: Seq<(i32, String)>, i: int) -> RegenerationStage {
    if i < rows.len() {
        RegenerationStage::Reindex
    } else {
        RegenerationStage::Finish
    }
}

/// The checkpoint, row and stage after a report. A failed embedding is
/// logged and the row counts as handled; a failed checkpoint write stops the
/// job, keeping the checkpoint where it was.
pub open spec fn next_regeneration(j: RegenerationJob, r: Report) -> (i32, int, RegenerationStage) {
    let rows = j.rows@;
    let i = j.index as int;
    match j.stage {
        RegenerationStage::Reindex => (j.last, i, RegenerationStage::Checkpoint),
        RegenerationStage::Checkpoint => if r is Done && i < rows.len() && rows[i].0 > j.last {
            let k = first_above(rows, i + 1, rows[i].0);
            (rows[i].0, k, stage_at(rows, k))
        } else {
            (j.last, i, RegenerationStage::Aborted)
        },
        RegenerationStage::Finish => (j.last, i, RegenerationStage::Finished),
        _ => (j.last, i, j.stage),
    }
}

pub open spec fn regeneration_command(j: RegenerationJob, cmd: Command) -> bool {
    let rows = j.rows@;
    let i = j.index as int;
    match j.stage {
        RegenerationStage::Reindex => if i < rows.len() {
            cmd matches Command::ReindexIssue(k) && k@ == rows[i].1@
        } else {
            cmd is AbortJob
        },
        RegenerationStage::Checkpoint => if i < rows.len() && rows[i].0 > j.last {
            cmd matches Command::Store(StoreOp::UpsertJob { repository_full_name, data })
                && repository_full_name@ == Seq::<char>::empty()
                && data == (JobData::EmbeddingsRegeneration { current_issue: rows[i].0 })
        } else {
            cmd is AbortJob
        },
        RegenerationStage::Finish => cmd matches Command::Store(StoreOp::DeleteJob { repository_full_name, job_type })
            && repository_full_name@ == Seq::<char>::empty() && job_type == JobType::EmbeddingsRegeneration,
        RegenerationStage::Finished => cmd is Finish,
        RegenerationStage::Aborted => cmd is AbortJob,
    }
}

fn first_above_exec(rows: &Vec<(i32, String)>, from: usize, last: i32) -> (r: usize)
    requires
        from <= rows@.len(),
    ensures
        r as int == first_above(rows@, from as int, last),
{
    let mut k = from;
    while k < rows.len() && rows[k].0 <= last
        invariant
            from <= k <= rows@.len(),
            first_above(rows@, from as int, last) == first_above(rows@, k as int, last),
        decreases rows.len() - k,
    {
        k = k + 1;
    }
    k
}

impl RegenerationJob {
    /// The internal id after which rows are selected: the stored checkpoint,
    /// or 0 on a fresh start.
    pub fn resume_after(checkpoint: Option<JobData>) -> (r: i32)
        ensures
            r == regeneration_start(checkpoint),
    {
        match checkpoint {
            Some(JobData::EmbeddingsRegeneration { current_issue }) => current_issue,
            _ => 0,
        }
    }

    /// Resumes after the stored checkpoint (or starts from the beginning)
    /// over the selected rows, and names the first command.
    pub fn new(checkpoint: Option<JobData>, rows: Vec<(i32, String)>) -> (r: (Self, Command))
        ensures
            r.0.last == regeneration_start(checkpoint),
            r.0.rows == rows,
            r.0.index as int == first_above(rows@, 0, r.0.last),
            r.0.stage == stage_at(rows@, r.0.index as int),
            regeneration_command(r.0, r.1),
    {
        let last = RegenerationJob::resume_after(checkpoint);
        let index = first_above_exec(&rows, 0, last);
        let stage = if index < rows.len() {
            RegenerationStage::Reindex
        } else {
            RegenerationStage::Finish
        };
        let job = RegenerationJob { last, rows, index, stage };
        let cmd = job.command();
        (job, cmd)
    }

    /// Takes the report of the last command and names the next one.
    pub fn advance(&mut self, report: Report) -> (cmd: Command)
        ensures
            final(self).rows == old(self).rows,
            (final(self).last, final(self).index as int, final(self).stage) == next_regeneration(*old(self), report),
            final(self).last >= old(self).last,
            final(self).index >= old(self).index,
            regeneration_command(*final(self), cmd),
    {
        match self.stage {
            RegenerationStage::Reindex => {
                self.stage = RegenerationStage::Checkpoint;
            },
            RegenerationStage::Checkpoint => {
                let i = self.index;
                if matches!(report, Report::Done) && i < self.rows.len() && self.rows[i].0 > self.last {
                    let id = self.rows[i].0;
                    let k = first_above_exec(&self.rows, i + 1, id);
                    proof {
                        lemma_first_above(self.rows@, i + 1, id);
                    }
                    self.last = id;
                    self.index = k;
                    self.stage = if k < self.rows.len() {
                        RegenerationStage::Reindex
                    } else {
                        RegenerationStage::Finish
                    };
                } else {
                    self.stage = RegenerationStage::Aborted;
                }
            },
            RegenerationStage::Finish => {
                self.stage = RegenerationStage::Finished;
            },
            _ => {},
        }
        self.command()
    }

    /// The command of the current stage.
    pub fn command(&self) -> (cmd: Command)
        ensures
            regeneration_command(*self, cmd),
    {
        let i = self.index;
        match self.stage {
            RegenerationStage::Reindex => if i < self.rows.len() {
                Command::ReindexIssue(self.rows[i].1.clone())
            } else {
                Command::AbortJob
            },
            RegenerationStage::Checkpoint => if i < self.rows.len() && self.rows[i].0 > self.last {
                Command::Store(StoreOp::UpsertJob {
                    repository_full_name: String::new(),
                    data: JobData::EmbeddingsRegeneration { current_issue: self.rows[i].0 },
                })
            } else {
                Command::AbortJob
            },
            RegenerationStage::Finish => Command::Store(StoreOp::DeleteJob {
                repository_full_name: String::new(),
                job_type: JobType::EmbeddingsRegeneration,
            }),
            RegenerationStage::Finished => Command::Finish,
            RegenerationStage::Aborted => Command::AbortJob,
        }
    }

    /// Progress to report after `done` of `total` issues: about every tenth of
    /// a set of more than ten, as a whole percentage.
    pub fn progress(done: usize, total: usize) -> (r: Option<usize>)
        requires
            done <= total,
        ensures
            r is Some <==> (total > 10 && done % (total / 10) == 0),
            r matches Some(p) ==> p as int == (done as int) * 100 / (total as int),
    {
        if total > 10 && done % (total / 10) == 0 {
            let q: u128 = done as u128 * 100 / total as u128;
            assert(q <= 100) by (nonlinear_arith)
                requires
                    done <= total,
                    total > 10,
                    q == (done as int) * 100 / (total as int),
            {}
            let p = q as usize;
            Some(p)
        } else {
            None
        }
    }
}

proof fn lemma_insert_comments_keeps(db: Db, issue: Seq<char>, cs: Seq<CommentRecord>)
    ensures
        insert_comments(db, issue, cs).issues == db.issues,
        insert_comments(db, issue, cs).jobs == db.jobs,
        insert_comments(db, issue, cs).next_id == db.next_id,
        forall|k: Seq<char>| #[trigger] db.comments.contains_key(k) ==> insert_comments(db, issue, cs).comments.contains_key(k)
            && insert_comments(db, issue, cs).comments[k] == db.comments[k],
        db.issues.contains_key(issue) ==> forall|j: int| 0 <= j < cs.len()
            ==> insert_comments(db, issue, cs).comments.contains_key((#[trigger] cs[j]).source_id@),
    decreases cs.len(),
{
    if cs.len() > 0 {
        lemma_insert_comments_keeps(db, issue, cs.drop_last());
        assert forall|j: int| 0 <= j < cs.len() - 1 implies cs.drop_last()[j] == #[trigger] cs[j] by {}
    }
}

proof fn lemma_insert_comments_stored(db: Db, issue: Seq<char>, cs: Seq<CommentRecord>)
    requires
        !db.issues.contains_key(issue) || forall|j: int| 0 <= j < cs.len() ==> db.comments.contains_key((#[trigger] cs[j]).source_id@),
    ensures
        insert_comments(db, issue, cs) == db,
    decreases cs.len(),
{
    if cs.len() > 0 {
        assert forall|j: int| 0 <= j < cs.len() - 1 implies cs.drop_last()[j] == #[trigger] cs[j] by {}
        lemma_insert_comments_stored(db, issue, cs.drop_last());
        assert(insert_comment(db, issue, cs.last()) == db);
    }
}

/// An indexation that is aborted after it checkpointed page `n` (the last
/// item of that page was handled; an aborted job deletes no checkpoint)
/// resumes at page `n + 1`. Crawling an issue's comments again stores nothing
/// twice: comments already stored keep their rows, and a second bulk insert
/// of the same comments changes nothing.
pub proof fn lemma_resume_after_abort(
    db: Db,
    t: ItemTask,
    cmd: Command,
    n: i32,
    issue: Seq<char>,
    cs: Seq<CommentRecord>,
)
    requires
        t.stage == ItemStage::Checkpoint,
        t.page == Some(n),
        n < i32::MAX,
        item_command(t, cmd),
    ensures
        cmd matches Command::Store(op) && resume_page(
            checkpoint_of(crate::store::apply_op(db, op), job_key(t.repository.full_name@, JobType::IssueIndexation)),
        ) == Some((n + 1) as i32),
        insert_comments(insert_comments(db, issue, cs), issue, cs) == insert_comments(db, issue, cs),
        forall|k: Seq<char>| #[trigger] db.comments.contains_key(k) ==> insert_comments(db, issue, cs).comments[k]
            == db.comments[k],
{
    lemma_insert_comments_keeps(db, issue, cs);
    lemma_insert_comments_stored(insert_comments(db, issue, cs), issue, cs);
}

/// A regeneration handles its rows in ascending id order, each at most once:
/// a written checkpoint moves strictly forward, to the id of the row just
/// handled, and the next row to handle comes later in the selection with a
/// higher id still. Nothing else moves the checkpoint.
pub proof fn lemma_regeneration_ascending(j: RegenerationJob, r: Report)
    requires
        j.index <= j.rows@.len(),
    ensures
        ({
            let (last, k, stage) = next_regeneration(j, r);
            &&& last >= j.last
            &&& (j.stage == RegenerationStage::Checkpoint && stage != RegenerationStage::Aborted) ==> {
                &&& last == j.rows@[j.index as int].0
                &&& last > j.last
                &&& k > j.index
                &&& (k < j.rows@.len() ==> j.rows@[k].0 > last)
                &&& forall|m: int| j.index < m < k ==> j.rows@[m].0 <= last
            }
            &&& (j.stage != RegenerationStage::Checkpoint ==> last == j.last && k == j.index)
        }),
{
    if j.stage == RegenerationStage::Checkpoint && j.index < j.rows@.len() {
        lemma_first_above(j.rows@, j.index + 1, j.rows@[j.index as int].0);
    }
}

/// Selected rows whose ids are positive and strictly ascending, as the
/// selection query returns them.
pub open spec fn ascending_ids(rows: Seq<(i32, String)>) -> bool {
    &&& forall|a: int| 0 <= a < rows.len() ==> (#[trigger] rows[a]).0 > 0
    &&& forall|a: int, b: int| 0 <= a < b < rows.len() ==> (#[trigger] rows[a]).0 < (#[trigger] rows[b]).0
}

/// The job after `n` commands that all succeeded.
pub open spec fn regeneration_after(j: RegenerationJob, n: nat) -> RegenerationJob
    decreases n,
{
    if n == 0 {
        j
    } else {
        let p = regeneration_after(j, (n - 1) as nat);
        let (last, k, stage) = next_regeneration(p, Report::Done);
        RegenerationJob { last, rows: p.rows, index: k as usize, stage }
    }
}

/// The checkpoint once the first `k` rows are handled.
pub open spec fn last_before(rows: Seq<(i32, String)>, k: int) -> i32 {
    if k == 0 {
        0
    } else {
        rows[k - 1].0
    }
}

proof fn lemma_regeneration_prefix(j: RegenerationJob, k: nat)
    requires
        ascending_ids(j.rows@),
        j.last == 0,
        j.index == 0,
        j.stage == stage_at(j.rows@, 0),
        k <= j.rows@.len(),
    ensures
        regeneration_after(j, 2 * k).rows == j.rows,
        regeneration_after(j, 2 * k).last == last_before(j.rows@, k as int),
        regeneration_after(j, 2 * k).index == k,
        regeneration_after(j, 2 * k).stage == stage_at(j.rows@, k as int),
    decreases k,
{
    if k > 0 {
        let rows = j.rows@;
        assert(rows.len() == j.rows.len());
        lemma_regeneration_prefix(j, (k - 1) as nat);
        let p0 = regeneration_after(j, (2 * (k - 1)) as nat);
        let p1 = regeneration_after(j, (2 * k - 1) as nat);
        assert(p1 == regeneration_after(j, (2 * (k - 1) + 1) as nat));
        assert(p1.stage == RegenerationStage::Checkpoint && p1.index == k - 1 && p1.last == p0.last);
        assert(rows[k - 1].0 > last_before(rows, k - 1)) by {
            if k > 1 {
                assert(rows[k - 2].0 < rows[k - 1].0);
            }
        }
        lemma_first_above(rows, k as int, rows[k - 1].0);
        if k < rows.len() {
            assert(rows[k - 1].0 < rows[k as int].0);
        }
        assert(regeneration_after(j, 2 * k) == regeneration_after(j, (2 * k - 1 + 1) as nat));
    }
}

/// A regeneration started with no checkpoint over rows in ascending id order
/// (what the selection query returns), whose commands all succeed, embeds
/// each row again exactly once, in that order, moving the checkpoint to each
/// row right after it; then it deletes the checkpoint and ends. Since it
/// leaves no checkpoint, a second run starts over and does the same.
pub proof fn lemma_regeneration_runs_every_row(j: RegenerationJob, checkpoint: Option<JobData>)
    requires
        checkpoint is None,
        j.last == regeneration_start(checkpoint),
        j.index as int == first_above(j.rows@, 0, j.last),
        j.stage == stage_at(j.rows@, j.index as int),
        ascending_ids(j.rows@),
    ensures
        forall|k: int, c: Command| 0 <= k < j.rows@.len()
            && #[trigger] regeneration_command(regeneration_after(j, (2 * k) as nat), c)
                ==> (c matches Command::ReindexIssue(key) && key@ == j.rows@[k].1@),
        forall|k: int, c: Command| 0 <= k < j.rows@.len()
            && #[trigger] regeneration_command(regeneration_after(j, (2 * k + 1) as nat), c)
                ==> (c matches Command::Store(StoreOp::UpsertJob { data, .. })
                    && data == (JobData::EmbeddingsRegeneration { current_issue: j.rows@[k].0 })),
        regeneration_after(j, (2 * j.rows@.len()) as nat).stage == RegenerationStage::Finish,
        regeneration_after(j, (2 * j.rows@.len() + 1) as nat).stage == RegenerationStage::Finished,
{
    let rows = j.rows@;
    if rows.len() > 0 {
        assert(rows[0].0 > 0);
    }
    assert(j.index == 0);
    assert forall|k: int, c: Command| 0 <= k < rows.len()
        && #[trigger] regeneration_command(regeneration_after(j, (2 * k) as nat), c) implies
            (c matches Command::ReindexIssue(key) && key@ == rows[k].1@) by {
        lemma_regeneration_prefix(j, k as nat);
    }
    assert forall|k: int, c: Command| 0 <= k < rows.len()
        && #[trigger] regeneration_command(regeneration_after(j, (2 * k + 1) as nat), c) implies
            (c matches Command::Store(StoreOp::UpsertJob { data, .. })
                && data == (JobData::EmbeddingsRegeneration { current_issue: rows[k].0 })) by {
        lemma_regeneration_prefix(j, k as nat);
        assert(regeneration_after(j, (2 * k + 1) as nat) == regeneration_after(j, (2 * k as nat + 1) as nat));
        if k > 0 {
            assert(rows[k - 1].0 < rows[k].0);
        }
    }
    lemma_regeneration_prefix(j, rows.len());
}

/// Key of the single, global regeneration checkpoint.
pub open spec fn regeneration_key() -> (Seq<char>, JobType) {
    job_key(Seq::empty(), JobType::EmbeddingsRegeneration)
}

/// The issues that a regeneration resuming after internal id `start` selects.
pub open spec fn selected(db: Db, start: int) -> Set<Seq<char>> {
    Set::new(|k: Seq<char>| db.issues.contains_key(k) && db.issues[k].id > start)
}

/// The tables after a regeneration has embedded the issues of `order` again,
/// one at a time, moving the checkpoint to each in turn.
pub open spec fn regeneration_run(db: Db, order: Seq<Seq<char>>) -> Db
    decreases order.len(),
{
    if order.len() == 0 {
        db
    } else {
        let d = regeneration_run(db, order.drop_last());
        let k = order.last();
        upsert_job(
            set_embedding(d, k),
            regeneration_key(),
            JobData::EmbeddingsRegeneration { current_issue: d.issues[k].id as i32 },
        )
    }
}

/// A regeneration run to completion: its checkpoint is deleted at the end.
pub open spec fn completed_regeneration(db: Db, order: Seq<Seq<char>>) -> Db {
    delete_job(regeneration_run(db, order), regeneration_key())
}

/// Internal ids are positive.
pub open spec fn ids_positive(db: Db) -> bool {
    forall|k: Seq<char>| #[trigger] db.issues.contains_key(k) ==> db.issues[k].id > 0
}

proof fn lemma_run_effects(db: Db, order: Seq<Seq<char>>)
    ensures
        regeneration_run(db, order).issues.dom() == db.issues.dom(),
        forall|k: Seq<char>| #[trigger] db.issues.contains_key(k) ==> regeneration_run(db, order).issues[k].id == db.issues[k].id,
        forall|j: int| 0 <= j < order.len() && db.issues.contains_key(#[trigger] order[j])
            ==> regeneration_run(db, order).issues[order[j]].embedded,
    decreases order.len(),
{
    if order.len() > 0 {
        lemma_run_effects(db, order.drop_last());
        let d = regeneration_run(db, order.drop_last());
        let k = order.last();
        assert(set_embedding(d, k).issues.dom() =~= d.issues.dom());
        assert forall|j: int| 0 <= j < order.len() - 1 implies order.drop_last()[j] == #[trigger] order[j] by {}
    }
}

proof fn lemma_one_run(db: Db, order: Seq<Seq<char>>)
    requires
        ids_positive(db),
        checkpoint_of(db, regeneration_key()) is None,
        order.to_set() == selected(db, regeneration_start(checkpoint_of(db, regeneration_key())) as int),
    ensures
        order.to_set() == db.issues.dom(),
        checkpoint_of(completed_regeneration(db, order), regeneration_key()) is None,
        completed_regeneration(db, order).issues.dom() == db.issues.dom(),
        ids_positive(completed_regeneration(db, order)),
        forall|k: Seq<char>| #[trigger] db.issues.contains_key(k) ==> completed_regeneration(db, order).issues[k].embedded,
{
    assert(selected(db, 0) =~= db.issues.dom());
    lemma_run_effects(db, order);
    let r = completed_regeneration(db, order);
    assert(r.issues.dom() =~= db.issues.dom());
    assert forall|k: Seq<char>| #[trigger] db.issues.contains_key(k) implies r.issues[k].embedded by {
        assert(order.to_set().contains(k));
        let j = choose|j: int| 0 <= j < order.len() && order[j] == k;
    }
}

/// Regeneration run to completion from a fresh start embeds every stored
/// issue again and leaves no checkpoint behind (when every embedding call
/// succeeds). A second run after it therefore starts over from the first
/// issue: it too selects and embeds every issue, and again leaves no
/// checkpoint.
pub proof fn lemma_regeneration_repeatable(db: Db, first: Seq<Seq<char>>, second: Seq<Seq<char>>)
    requires
        ids_positive(db),
        checkpoint_of(db, regeneration_key()) is None,
        first.to_set() == selected(db, regeneration_start(checkpoint_of(db, regeneration_key())) as int),
        second.to_set() == selected(
            completed_regeneration(db, first),
            regeneration_start(checkpoint_of(completed_regeneration(db, first), regeneration_key())) as int,
        ),
    ensures
        first.to_set() == db.issues.dom(),
        second.to_set() == db.issues.dom(),
        checkpoint_of(completed_regeneration(db, first), regeneration_key()) is None,
        checkpoint_of(completed_regeneration(completed_regeneration(db, first), second), regeneration_key()) is None,
        forall|k: Seq<char>| #[trigger] db.issues.contains_key(k) ==> completed_regeneration(db, first).issues[k].embedded
            && completed_regeneration(completed_regeneration(db, first), second).issues[k].embedded,
{
    lemma_one_run(db, first);
    lemma_one_run(completed_regeneration(db, first), second);
}

} // verus!
