use issue_bot::dispatcher::{Command, EventTask, Report, Stage};
use issue_bot::events::{Action, CommentData, EventData, IndexIssueData, IssueData, RepositoryData, Source};
use issue_bot::notify::ClosestIssue;
use issue_bot::store::StoreOp;
use issue_bot::text::issue_text;

fn issue(action: Action, is_pull_request: bool, source: Source) -> IssueData {
    IssueData {
        source_id: "42".to_string(),
        action,
        title: "Bug".to_string(),
        body: "Steps...".to_string(),
        is_pull_request,
        number: 7,
        html_url: "https://example.org/org/repo/issues/7".to_string(),
        url: "https://api.example.org/org/repo/issues/7".to_string(),
        repository_full_name: "org/repo".to_string(),
        source,
    }
}

fn comment(action: Action) -> CommentData {
    CommentData {
        source_id: "c1".to_string(),
        action,
        issue_id: "42".to_string(),
        body: "+1".to_string(),
        url: "https://example.org/c1".to_string(),
    }
}

fn closest() -> Vec<ClosestIssue> {
    vec![
        ClosestIssue { title: "Old bug".to_string(), number: 3, html_url: "https://example.org/3".to_string() },
        ClosestIssue { title: "Other".to_string(), number: 5, html_url: "https://example.org/5".to_string() },
        ClosestIssue { title: "Third".to_string(), number: 6, html_url: "https://example.org/6".to_string() },
    ]
}

#[test]
fn created_issue_then_comment_reindexes_with_comment_text() {
    let (mut task, cmd) = EventTask::new(EventData::Issue(issue(Action::Created, false, Source::Github)));
    match cmd {
        Command::GenerateEmbedding(text) => assert_eq!(text, "# Bug\nSteps..."),
        other => panic!("unexpected {:?}", other),
    }
    assert!(matches!(task.advance(Report::Embedded), Command::FindClosestIssues { limit: 3 }));
    match task.advance(Report::ClosestIssues(closest())) {
        Command::Summarize(text) => assert_eq!(text, "# Bug\nSteps..."),
        other => panic!("unexpected {:?}", other),
    }
    match task.advance(Report::Summary("A bug.".to_string())) {
        Command::NotifySlack { message, thread } => {
            assert_eq!(
                message,
                "Closest issues for <https://example.org/org/repo/issues/7|#7>:\nA bug.\n\n• Old bug (<https://example.org/3|#3>)\n• Other (<https://example.org/5|#5>)\n• Third (<https://example.org/6|#6>)"
            );
            assert_eq!(thread, "*Bug*\n---\nSteps...");
        }
        other => panic!("unexpected {:?}", other),
    }
    match task.advance(Report::Done) {
        Command::PostComment { source, issue_url, issue_list } => {
            assert_eq!(source, Source::Github);
            assert_eq!(issue_url, "https://api.example.org/org/repo/issues/7");
            assert_eq!(
                issue_list,
                "- Old bug ([#3](https://example.org/3))\n- Other ([#5](https://example.org/5))\n- Third ([#6](https://example.org/6))"
            );
        }
        other => panic!("unexpected {:?}", other),
    }
    match task.advance(Report::Done) {
        Command::Store(StoreOp::InsertIssue(r)) => {
            assert_eq!(r.source_id, "42");
            assert_eq!(r.title, "Bug");
            assert_eq!(r.number, 7);
            assert_eq!(r.repository_full_name, "org/repo");
            assert!(!r.is_pull_request);
        }
        other => panic!("unexpected {:?}", other),
    }
    assert!(matches!(task.advance(Report::Done), Command::Finish));
    assert_eq!(task.stage, Stage::Finished);

    let (mut task, cmd) = EventTask::new(EventData::Comment(comment(Action::Created)));
    match cmd {
        Command::Store(StoreOp::InsertComment { issue_source_id, comment }) => {
            assert_eq!(issue_source_id, "42");
            assert_eq!(comment.body, "+1");
        }
        other => panic!("unexpected {:?}", other),
    }
    match task.advance(Report::Done) {
        Command::ReindexIssue(id) => assert_eq!(id, "42"),
        other => panic!("unexpected {:?}", other),
    }
    assert!(matches!(task.advance(Report::Done), Command::Finish));
    let text = issue_text("Bug", "Steps...", &vec!["+1".to_string()]);
    assert_eq!(text, "# Bug\nSteps...\n----\nComment: +1");
}

#[test]
fn created_then_edited_updates_the_same_key() {
    let (_, cmd) = EventTask::new(EventData::Issue(issue(Action::Edited, false, Source::Github)));
    match cmd {
        Command::Store(StoreOp::UpdateIssue { source_id, title, body, url }) => {
            assert_eq!(source_id, "42");
            assert_eq!(title, "Bug");
            assert_eq!(body, "Steps...");
            assert_eq!(url, "https://api.example.org/org/repo/issues/7");
        }
        other => panic!("unexpected {:?}", other),
    }
}

#[test]
fn edited_issue_is_reindexed() {
    let (mut task, _) = EventTask::new(EventData::Issue(issue(Action::Edited, false, Source::Github)));
    match task.advance(Report::Failed) {
        Command::ReindexIssue(id) => assert_eq!(id, "42"),
        other => panic!("unexpected {:?}", other),
    }
    assert!(matches!(task.advance(Report::Done), Command::Finish));
}

#[test]
fn deleted_issue_is_removed_without_reindex() {
    let (mut task, cmd) = EventTask::new(EventData::Issue(issue(Action::Deleted, false, Source::Github)));
    match cmd {
        Command::Store(StoreOp::DeleteIssue { source_id }) => assert_eq!(source_id, "42"),
        other => panic!("unexpected {:?}", other),
    }
    assert!(matches!(task.advance(Report::Done), Command::Finish));
}

#[test]
fn failed_embedding_drops_the_new_issue() {
    let (mut task, _) = EventTask::new(EventData::Issue(issue(Action::Created, false, Source::Github)));
    assert!(matches!(task.advance(Report::Failed), Command::Finish));
}

#[test]
fn failed_summary_skips_chat_but_comments_and_stores() {
    let (mut task, _) = EventTask::new(EventData::Issue(issue(Action::Created, false, Source::HuggingFace)));
    task.advance(Report::Embedded);
    task.advance(Report::ClosestIssues(closest()));
    match task.advance(Report::Failed) {
        Command::PostComment { source, .. } => assert_eq!(source, Source::HuggingFace),
        other => panic!("unexpected {:?}", other),
    }
    assert!(matches!(task.advance(Report::Done), Command::Store(StoreOp::InsertIssue(_))));
}

#[test]
fn failed_nearest_query_still_stores_the_issue() {
    let (mut task, _) = EventTask::new(EventData::Issue(issue(Action::Created, false, Source::Github)));
    task.advance(Report::Embedded);
    assert!(matches!(task.advance(Report::Failed), Command::Store(StoreOp::InsertIssue(_))));
}

#[test]
fn pull_requests_get_no_comment() {
    let (mut task, _) = EventTask::new(EventData::Issue(issue(Action::Created, true, Source::Github)));
    task.advance(Report::Embedded);
    task.advance(Report::ClosestIssues(closest()));
    assert!(matches!(task.advance(Report::Summary("s".to_string())), Command::NotifySlack { .. }));
    assert!(matches!(task.advance(Report::Failed), Command::Store(StoreOp::InsertIssue(_))));
}

#[test]
fn comment_for_unknown_issue_is_not_reindexed() {
    let (mut task, _) = EventTask::new(EventData::Comment(comment(Action::Created)));
    assert!(matches!(task.advance(Report::NotFound), Command::Finish));
}

#[test]
fn edited_and_deleted_comments_reindex_their_issue() {
    let (mut task, cmd) = EventTask::new(EventData::Comment(comment(Action::Edited)));
    match cmd {
        Command::Store(StoreOp::UpdateComment { source_id, body, url }) => {
            assert_eq!(source_id, "c1");
            assert_eq!(body, "+1");
            assert_eq!(url, "https://example.org/c1");
        }
        other => panic!("unexpected {:?}", other),
    }
    match task.advance(Report::Done) {
        Command::ReindexIssue(id) => assert_eq!(id, "42"),
        other => panic!("unexpected {:?}", other),
    }
    let (mut task, cmd) = EventTask::new(EventData::Comment(comment(Action::Deleted)));
    assert!(matches!(cmd, Command::Store(StoreOp::DeleteComment { .. })));
    assert!(matches!(task.advance(Report::Failed), Command::ReindexIssue(_)));
}

#[test]
fn jobs_are_handed_off() {
    let repo = RepositoryData { full_name: "org/repo".to_string(), source: Source::Github };
    let (mut task, cmd) = EventTask::new(EventData::RepositoryIndexation(repo));
    match cmd {
        Command::SpawnIndexation(r) => assert_eq!(r.full_name, "org/repo"),
        other => panic!("unexpected {:?}", other),
    }
    assert!(matches!(task.advance(Report::Done), Command::Finish));
    let (_, cmd) = EventTask::new(EventData::RegenerateEmbeddings);
    assert!(matches!(cmd, Command::SpawnRegeneration));
    let data = IndexIssueData { issue_number: 12, repository_full_name: "org/repo".to_string() };
    let (_, cmd) = EventTask::new(EventData::IssueIndexation(data));
    match cmd {
        Command::IndexSingleIssue(d) => assert_eq!(d.issue_number, 12),
        other => panic!("unexpected {:?}", other),
    }
}
