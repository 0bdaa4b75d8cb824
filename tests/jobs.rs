use issue_bot::crawler::{get_next_page, Comment, Crawl, CrawlReport, CrawlStep, Issue, IssueWithComments};
use issue_bot::dispatcher::{Command, Report};
use issue_bot::events::{RepositoryData, Source};
use issue_bot::guard::IndexationGuard;
use issue_bot::jobs::{IndexationJob, ItemStage, RegenerationJob, RegenerationStage};
use issue_bot::ratelimit::{rate_limit_delay, GithubApiError};
use issue_bot::retry::{pick_embedding, Attempt, EmbeddingError, RetryDecision, RetryPolicy};
use issue_bot::store::{JobData, JobType, StoreOp};
use issue_bot::webhooks::index_repository;
use issue_bot::errors::ApiError;
use issue_bot::events::EventData;

fn repo() -> RepositoryData {
    RepositoryData { full_name: "org/repo".to_string(), source: Source::Github }
}

fn crawled(comments: Vec<Comment>) -> IssueWithComments {
    let issue = Issue {
        body: "Steps".to_string(),
        comments_url: "https://api.example.org/c".to_string(),
        html_url: "https://example.org/9".to_string(),
        id: 900,
        number: 9,
        is_pull_request: false,
        title: "Crash".to_string(),
        url: "https://api.example.org/9".to_string(),
    };
    IssueWithComments::new(issue, comments)
}

/// A job for `org/repo`, started by an accepted request.
fn accepted_job(guard: &mut IndexationGuard) -> IndexationJob {
    assert!(index_repository(repo(), guard).is_ok());
    IndexationJob::start(guard, repo()).unwrap()
}

#[test]
fn second_indexation_request_is_rejected_while_first_runs() {
    let mut guard = IndexationGuard::new();
    assert!(matches!(index_repository(repo(), &mut guard), Ok(EventData::RepositoryIndexation(_))));
    assert!(matches!(index_repository(repo(), &mut guard), Err(ApiError::IndexationInProgress)));
    let job = IndexationJob::start(&mut guard, repo()).unwrap();
    assert!(guard.is_running("org/repo"));
    assert!(matches!(index_repository(repo(), &mut guard), Err(ApiError::IndexationInProgress)));
    assert!(IndexationJob::start(&mut guard, repo()).is_none());
    let other = RepositoryData { full_name: "org/other".to_string(), source: Source::Github };
    assert!(index_repository(other, &mut guard).is_ok());
    assert!(job.finish(&mut guard, true).is_some());
    assert!(!guard.contains("org/repo"));
    assert!(guard.contains("org/other"));
    assert!(!guard.is_running("org/other"));
    assert!(index_repository(repo(), &mut guard).is_ok());
}

#[test]
fn dispatched_indexations_of_one_repository_run_once() {
    let mut guard = IndexationGuard::new();
    let first = IndexationJob::start(&mut guard, repo());
    assert!(first.is_some());
    assert!(IndexationJob::start(&mut guard, repo()).is_none());
    assert!(IndexationJob::start(&mut guard, repo()).is_none());
    assert!(guard.is_running("org/repo"));
    assert!(first.unwrap().finish(&mut guard, false).is_none());
    assert!(!guard.contains("org/repo"));
    assert!(IndexationJob::start(&mut guard, repo()).is_some());
}

#[test]
fn guard_release_is_idempotent() {
    let mut guard = IndexationGuard::new();
    assert!(guard.try_admit("a"));
    assert!(!guard.try_admit("a"));
    assert!(guard.try_start("a"));
    assert!(!guard.try_start("a"));
    assert!(!guard.try_admit("a"));
    guard.release("a");
    guard.release("a");
    assert!(!guard.contains("a"));
    assert!(guard.try_admit("a"));
}

#[test]
fn aborted_indexation_resumes_after_last_checkpoint() {
    let mut guard = IndexationGuard::new();
    let job = accepted_job(&mut guard);
    let (mut task, _) = job.item(crawled(vec![]), Some(4));
    task.advance(Report::Embedded);
    match task.advance(Report::Done) {
        Command::Store(StoreOp::UpsertJob { repository_full_name, data }) => {
            assert_eq!(repository_full_name, "org/repo");
            assert_eq!(data, JobData::IssueIndexation { issues_page: 4 });
        }
        other => panic!("unexpected {:?}", other),
    }
    assert!(matches!(task.advance(Report::Done), Command::Finish));
    assert!(job.finish(&mut guard, false).is_none());
    assert!(!guard.contains("org/repo"));
    assert_eq!(IndexationJob::first_page(Some(JobData::IssueIndexation { issues_page: 4 })), Some(5));
    assert_eq!(IndexationJob::first_page(None), Some(1));
    assert_eq!(IndexationJob::first_page(Some(JobData::IssueIndexation { issues_page: i32::MAX })), None);
}

#[test]
fn completed_indexation_deletes_its_checkpoint() {
    let mut guard = IndexationGuard::new();
    let job = accepted_job(&mut guard);
    match job.finish(&mut guard, true) {
        Some(StoreOp::DeleteJob { repository_full_name, job_type }) => {
            assert_eq!(repository_full_name, "org/repo");
            assert_eq!(job_type, JobType::IssueIndexation);
        }
        other => panic!("unexpected {:?}", other),
    }
}

#[test]
fn crawled_item_is_embedded_stored_with_comments_then_checkpointed() {
    let comments = vec![
        Comment { body: "first".to_string(), id: 1, url: "u1".to_string() },
        Comment { body: "second".to_string(), id: 2, url: "u2".to_string() },
    ];
    let mut guard = IndexationGuard::new();
    let job = accepted_job(&mut guard);
    let (mut task, cmd) = job.item(crawled(comments), Some(2));
    match cmd {
        Command::GenerateEmbedding(text) => {
            assert_eq!(text, "# Crash\nSteps\n----\nComment: first\n----\nComment: second")
        }
        other => panic!("unexpected {:?}", other),
    }
    match task.advance(Report::Embedded) {
        Command::Store(StoreOp::InsertIssueIfAbsent(r)) => {
            assert_eq!(r.source_id, "github:900");
            assert_eq!(r.repository_full_name, "org/repo");
        }
        other => panic!("unexpected {:?}", other),
    }
    match task.advance(Report::Done) {
        Command::Store(StoreOp::InsertCommentsIgnoringDuplicates { issue_source_id, comments }) => {
            assert_eq!(issue_source_id, "github:900");
            assert_eq!(comments.len(), 2);
            assert_eq!(comments[1].source_id, "github:2");
            assert_eq!(comments[1].body, "second");
        }
        other => panic!("unexpected {:?}", other),
    }
    assert!(matches!(task.advance(Report::Failed), Command::Store(StoreOp::UpsertJob { .. })));
    assert!(matches!(task.advance(Report::Failed), Command::AbortJob));
    assert_eq!(task.stage, ItemStage::Aborted);
}

#[test]
fn failed_item_is_skipped_without_checkpoint() {
    let mut guard = IndexationGuard::new();
    let job = accepted_job(&mut guard);
    let (mut task, _) = job.item(crawled(vec![]), Some(3));
    assert!(matches!(task.advance(Report::Failed), Command::Finish));
    let (mut task, _) = job.item(crawled(vec![]), None);
    task.advance(Report::Embedded);
    assert!(matches!(task.advance(Report::Done), Command::Finish));
}

fn rows(ids: &[i32]) -> Vec<(i32, String)> {
    ids.iter().map(|i| (*i, format!("github:{}", i))).collect()
}

#[test]
fn regeneration_embeds_rows_in_order_and_clears_its_checkpoint() {
    let (mut job, cmd) = RegenerationJob::new(None, rows(&[3, 5, 9]));
    assert_eq!(job.last, 0);
    let mut reindexed = Vec::new();
    let mut checkpoints = Vec::new();
    let mut cmd = cmd;
    loop {
        let report = match cmd {
            Command::ReindexIssue(key) => {
                reindexed.push(key);
                Report::Done
            }
            Command::Store(StoreOp::UpsertJob { repository_full_name, data }) => {
                assert_eq!(repository_full_name, "");
                checkpoints.push(data);
                Report::Done
            }
            Command::Store(StoreOp::DeleteJob { job_type, .. }) => {
                assert_eq!(job_type, JobType::EmbeddingsRegeneration);
                Report::Done
            }
            Command::Finish => break,
            other => panic!("unexpected {:?}", other),
        };
        cmd = job.advance(report);
    }
    assert_eq!(reindexed, vec!["github:3", "github:5", "github:9"]);
    assert_eq!(
        checkpoints,
        vec![
            JobData::EmbeddingsRegeneration { current_issue: 3 },
            JobData::EmbeddingsRegeneration { current_issue: 5 },
            JobData::EmbeddingsRegeneration { current_issue: 9 },
        ]
    );
    assert_eq!(job.last, 9);
    assert_eq!(job.stage, RegenerationStage::Finished);
    let (again, cmd) = RegenerationJob::new(None, rows(&[3, 5, 9]));
    assert_eq!(again.last, 0);
    assert!(matches!(cmd, Command::ReindexIssue(k) if k == "github:3"));
}

#[test]
fn regeneration_resumes_after_checkpoint_and_stops_on_failed_write() {
    let checkpoint = Some(JobData::EmbeddingsRegeneration { current_issue: 5 });
    let (mut job, cmd) = RegenerationJob::new(checkpoint, rows(&[2, 5, 7, 6, 8]));
    assert!(matches!(cmd, Command::ReindexIssue(k) if k == "github:7"));
    assert!(matches!(job.advance(Report::Failed), Command::Store(StoreOp::UpsertJob { .. })));
    assert!(matches!(job.advance(Report::Done), Command::ReindexIssue(k) if k == "github:8"));
    assert!(matches!(job.advance(Report::Done), Command::Store(StoreOp::UpsertJob { .. })));
    assert!(matches!(job.advance(Report::Failed), Command::AbortJob));
    assert_eq!(job.last, 7);
    assert_eq!(RegenerationJob::resume_after(Some(JobData::EmbeddingsRegeneration { current_issue: 5 })), 5);
    assert_eq!(RegenerationJob::resume_after(None), 0);
    let (_, cmd) = RegenerationJob::new(None, vec![]);
    assert!(matches!(cmd, Command::Store(StoreOp::DeleteJob { .. })));
    assert_eq!(RegenerationJob::progress(0, 100), Some(0));
    assert_eq!(RegenerationJob::progress(30, 100), Some(30));
    assert_eq!(RegenerationJob::progress(31, 100), None);
    assert_eq!(RegenerationJob::progress(3, 5), None);
}

#[test]
fn timeouts_exhaust_five_retries_with_doubling_backoff() {
    let mut policy = RetryPolicy::new();
    let mut slept: u64 = 0;
    let mut backoffs = Vec::new();
    for _ in 0..5 {
        match policy.on_attempt(Attempt::TimedOut) {
            RetryDecision::Retry { backoff_secs } => {
                slept += backoff_secs;
                backoffs.push(backoff_secs);
            }
            other => panic!("unexpected {:?}", other),
        }
    }
    assert_eq!(backoffs, vec![2, 4, 8, 16, 32]);
    assert_eq!(slept, 62);
    match policy.on_attempt(Attempt::TimedOut) {
        RetryDecision::Fail(e) => assert_eq!(e, EmbeddingError::MaxRetriesExceeded(5)),
        other => panic!("unexpected {:?}", other),
    }
}

#[test]
fn client_errors_fail_at_once_and_server_errors_retry() {
    let mut policy = RetryPolicy::new();
    assert!(matches!(policy.on_attempt(Attempt::Status(503)), RetryDecision::Retry { backoff_secs: 2 }));
    match policy.on_attempt(Attempt::Status(404)) {
        RetryDecision::Fail(e) => assert_eq!(e, EmbeddingError::HttpClientError(404)),
        other => panic!("unexpected {:?}", other),
    }
    assert!(matches!(policy.on_attempt(Attempt::Status(200)), RetryDecision::ReadPayload));
    match policy.on_attempt(Attempt::TransportError("refused".to_string())) {
        RetryDecision::Fail(e) => assert_eq!(e, EmbeddingError::Reqwest("refused".to_string())),
        other => panic!("unexpected {:?}", other),
    }
    assert_eq!(pick_embedding(3), Ok(2));
    assert_eq!(pick_embedding(0), Err(EmbeddingError::MissingEmbedding));
}

#[test]
fn link_header_names_the_next_page() {
    let h = "<https://api.github.com/repositories/1/issues?page=2>; rel=\"next\", <https://api.github.com/repositories/1/issues?page=5>; rel=\"last\"";
    assert_eq!(get_next_page(Some(h)), Some("https://api.github.com/repositories/1/issues?page=2".to_string()));
    let last = "<https://api.github.com/repositories/1/issues?page=1>; rel=\"prev\", <https://api.github.com/repositories/1/issues?page=5>; rel=\"next\"";
    assert_eq!(get_next_page(Some(last)), Some("https://api.github.com/repositories/1/issues?page=5".to_string()));
    let end = "<https://api.github.com/repositories/1/issues?page=4>; rel=\"prev\", <https://api.github.com/repositories/1/issues?page=1>; rel=\"first\"";
    assert_eq!(get_next_page(Some(end)), None);
    assert_eq!(get_next_page(None), None);
    assert_eq!(get_next_page(Some("")), None);
}

#[test]
fn crawl_walks_pages_and_marks_their_last_item() {
    let (mut crawl, step) = Crawl::new(3);
    assert_eq!(step, CrawlStep::ListPage(3));
    let next = Some("<https://x/issues?page=4>; rel=\"next\"".to_string());
    assert_eq!(crawl.advance(CrawlReport::Listed { count: 2, link: next }), CrawlStep::FetchComments(0));
    assert_eq!(crawl.advance(CrawlReport::Fetched), CrawlStep::HandleItem { index: 0, page: None });
    assert_eq!(crawl.advance(CrawlReport::Handled), CrawlStep::FetchComments(1));
    assert_eq!(crawl.advance(CrawlReport::Fetched), CrawlStep::HandleItem { index: 1, page: Some(3) });
    assert_eq!(crawl.advance(CrawlReport::Handled), CrawlStep::ListPage(4));
    let first = Some("<https://x/issues?page=1>; rel=\"first\"".to_string());
    assert_eq!(crawl.advance(CrawlReport::Listed { count: 1, link: first }), CrawlStep::FetchComments(0));
    assert_eq!(crawl.advance(CrawlReport::Fetched), CrawlStep::HandleItem { index: 0, page: Some(4) });
    assert_eq!(crawl.advance(CrawlReport::Handled), CrawlStep::Done { completed: true });
}

#[test]
fn crawl_aborts_on_failure_and_ends_on_empty_last_page() {
    let (mut crawl, _) = Crawl::new(1);
    assert_eq!(crawl.advance(CrawlReport::Failed), CrawlStep::Done { completed: false });
    assert_eq!(crawl.advance(CrawlReport::Fetched), CrawlStep::Done { completed: false });
    let (mut crawl, _) = Crawl::new(1);
    assert_eq!(crawl.advance(CrawlReport::Listed { count: 0, link: None }), CrawlStep::Done { completed: true });
    let (mut crawl, _) = Crawl::new(1);
    crawl.advance(CrawlReport::Listed { count: 1, link: None });
    crawl.advance(CrawlReport::Fetched);
    assert_eq!(crawl.advance(CrawlReport::Failed), CrawlStep::Done { completed: false });
    let (mut crawl, _) = Crawl::new(i32::MAX);
    let next = Some("<https://x/issues?page=9>; rel=\"next\"".to_string());
    assert_eq!(crawl.advance(CrawlReport::Listed { count: 0, link: next }), CrawlStep::Done { completed: true });
}

#[test]
fn rate_limit_waits_until_reset_only_when_quota_is_spent() {
    assert_eq!(rate_limit_delay(Some("0"), Some("1000"), 990), Ok(12));
    assert_eq!(rate_limit_delay(Some("0"), Some("900"), 990), Ok(0));
    assert_eq!(rate_limit_delay(Some("17"), Some("1000"), 990), Ok(0));
    assert_eq!(rate_limit_delay(Some("+0"), Some("-5"), -10), Ok(7));
    assert!(matches!(rate_limit_delay(None, Some("1000"), 0), Err(GithubApiError::MissingRateLimitHeaders { .. })));
    assert!(matches!(rate_limit_delay(Some("0"), None, 0), Err(GithubApiError::MissingRateLimitHeaders { .. })));
    assert!(matches!(rate_limit_delay(Some("x"), Some("1"), 0), Err(GithubApiError::ParseInt(_))));
    assert!(matches!(rate_limit_delay(Some("1"), Some(" 1"), 0), Err(GithubApiError::ParseInt(_))));
}
