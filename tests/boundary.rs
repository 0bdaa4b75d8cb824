use issue_bot::errors::ApiError;
use issue_bot::events::{qualified_id, Action, EventData, RepositoryData, Source};
use issue_bot::guard::IndexationGuard;
use issue_bot::middlewares::RequestId;
use issue_bot::signature::{compute_signature, signature_header, verify_signature, HfWebhookSecretValidator, SecretValidator};
use issue_bot::webhooks::{
    github_webhook, huggingface_webhook, Author, CommentActionType, Discussion, GithubComment,
    GithubIssue, GithubWebhook, HfAction, HfComment, HfEvent, HuggingfaceWebhook,
    IssueActionType, IssueCommentWebhook, IssueWebhook, PullRequest, Repository, Scope, Url, WebUrl,
};

fn gh_issue() -> GithubIssue {
    GithubIssue {
        body: "superb work, isnt it".to_string(),
        html_url: "https://github.com/huggingface/lor-e/5".to_string(),
        id: 4321,
        number: 5,
        pull_request: None,
        title: "my great contribution to the world".to_string(),
        url: "https://github.com/api/huggingface/lor-e/5".to_string(),
    }
}

fn gh_repo() -> Repository {
    Repository { full_name: "huggingface/lor-e".to_string() }
}

fn discussion() -> Discussion {
    Discussion {
        id: "test".to_string(),
        is_pull_request: false,
        num: 1,
        title: "my test issue".to_string(),
        url: Url { web: "https://huggingface.co/test".to_string(), api: "https://huggingface.co/test".to_string() },
    }
}

fn hf_comment(author: &str) -> HfComment {
    HfComment {
        id: "test".to_string(),
        content: "some comment".to_string(),
        author: Author { id: author.to_string() },
        url: WebUrl { web: "https://huggingface.co/test".to_string() },
    }
}

#[test]
fn test_github_webhook_handler() {
    let guard = IndexationGuard::new();
    let opened = GithubWebhook::Issue(IssueWebhook { action: IssueActionType::Opened, issue: gh_issue(), repository: gh_repo() });
    match github_webhook(opened, &guard) {
        Ok(Some(EventData::Issue(d))) => {
            assert_eq!(d.source_id, "github:4321");
            assert_eq!(d.action, Action::Created);
            assert_eq!(d.title, "my great contribution to the world");
            assert_eq!(d.number, 5);
            assert_eq!(d.repository_full_name, "huggingface/lor-e");
            assert_eq!(d.source, Source::Github);
            assert!(!d.is_pull_request);
        }
        _ => panic!("expected an issue event"),
    }
    let created = GithubWebhook::IssueComment(IssueCommentWebhook {
        action: CommentActionType::Created,
        comment: GithubComment {
            body: "test review".to_string(),
            id: 1234,
            url: "https://github.com/huggingface/lor-e/5#comment-123".to_string(),
        },
        issue: gh_issue(),
        repository: gh_repo(),
    });
    match github_webhook(created, &guard) {
        Ok(Some(EventData::Comment(c))) => {
            assert_eq!(c.source_id, "github:1234");
            assert_eq!(c.issue_id, "github:4321");
            assert_eq!(c.action, Action::Created);
            assert_eq!(c.body, "test review");
        }
        _ => panic!("expected a comment event"),
    }
}

#[test]
fn github_webhook_for_repository_under_indexation_is_refused() {
    let mut guard = IndexationGuard::new();
    assert!(guard.try_admit("huggingface/lor-e"));
    let opened = GithubWebhook::Issue(IssueWebhook { action: IssueActionType::Opened, issue: gh_issue(), repository: gh_repo() });
    assert!(matches!(github_webhook(opened, &guard), Err(ApiError::IndexationInProgress)));
}

#[test]
fn ignored_issue_actions_yield_no_event() {
    let guard = IndexationGuard::new();
    let mut issue = gh_issue();
    issue.pull_request = Some(PullRequest { html_url: "h".to_string(), url: "u".to_string() });
    let closed = GithubWebhook::Issue(IssueWebhook { action: IssueActionType::Ignored, issue, repository: gh_repo() });
    assert!(matches!(github_webhook(closed, &guard), Ok(None)));
    let mut issue = gh_issue();
    issue.pull_request = Some(PullRequest { html_url: "h".to_string(), url: "u".to_string() });
    let edited = GithubWebhook::Issue(IssueWebhook { action: IssueActionType::Edited, issue, repository: gh_repo() });
    match github_webhook(edited, &guard) {
        Ok(Some(EventData::Issue(d))) => {
            assert!(d.is_pull_request);
            assert_eq!(d.action, Action::Edited);
        }
        _ => panic!("expected an issue event"),
    }
}

#[test]
fn test_hf_webhook_handler() {
    let opened = HuggingfaceWebhook {
        event: HfEvent { action: HfAction::Create, scope: Scope::Discussion },
        discussion: Some(discussion()),
        comment: None,
    };
    match huggingface_webhook(opened) {
        Ok(Some(EventData::Issue(d))) => {
            assert_eq!(d.source_id, "huggingface:test");
            assert_eq!(d.body, "");
            assert_eq!(d.title, "my test issue");
            assert_eq!(d.url, "https://huggingface.co/test");
            assert_eq!(d.source, Source::HuggingFace);
        }
        _ => panic!("expected an issue event"),
    }
    let commented = HuggingfaceWebhook {
        event: HfEvent { action: HfAction::Create, scope: Scope::DiscussionComment },
        discussion: Some(discussion()),
        comment: Some(hf_comment("test")),
    };
    match huggingface_webhook(commented) {
        Ok(Some(EventData::Comment(c))) => {
            assert_eq!(c.source_id, "huggingface:test");
            assert_eq!(c.issue_id, "huggingface:test");
            assert_eq!(c.body, "some comment");
            assert_eq!(c.action, Action::Created);
        }
        _ => panic!("expected a comment event"),
    }
}

#[test]
fn hf_webhook_from_the_bot_or_incomplete_is_dropped() {
    let own = HuggingfaceWebhook {
        event: HfEvent { action: HfAction::Update, scope: Scope::DiscussionComment },
        discussion: Some(discussion()),
        comment: Some(hf_comment("67e0825265e294ad98833748")),
    };
    assert!(matches!(huggingface_webhook(own), Ok(None)));
    let no_discussion = HuggingfaceWebhook {
        event: HfEvent { action: HfAction::Delete, scope: Scope::Discussion },
        discussion: None,
        comment: None,
    };
    match huggingface_webhook(no_discussion) {
        Err(ApiError::MalformedWebhook(m)) => {
            assert_eq!(m, "Missing discussion when event.scope = \"discussion\" and event.action = \"delete\"")
        }
        _ => panic!("expected a malformed webhook"),
    }
    let no_comment = HuggingfaceWebhook {
        event: HfEvent { action: HfAction::Create, scope: Scope::DiscussionComment },
        discussion: Some(discussion()),
        comment: None,
    };
    match huggingface_webhook(no_comment) {
        Err(ApiError::MalformedWebhook(m)) => {
            assert_eq!(m, "Missing comment when event.scope = \"discussion.comment\" and event.action = \"create\"")
        }
        _ => panic!("expected a malformed webhook"),
    }
}

#[test]
fn signature_is_hmac_sha256_in_hex() {
    let sig = compute_signature(b"what do ya want for nothing?", "Jefe");
    assert_eq!(sig, "sha256=5bdcc146bf60754e6a042426089575c75a003f089d2739839dec58b964ec3843");
    assert!(verify_signature(b"what do ya want for nothing?", "Jefe", Some(sig.as_str())).is_ok());
    assert!(matches!(verify_signature(b"what do ya want for nothing!", "Jefe", Some(sig.as_str())), Err(ApiError::SignatureMismatch)));
    assert!(matches!(verify_signature(b"x", "Jefe", None), Err(ApiError::SignatureMismatch)));
}

#[test]
fn signature_header_spells_bytes_in_lower_hex() {
    assert_eq!(signature_header(&[0x00, 0xab, 0x10, 0xff]), "sha256=00ab10ff");
    assert_eq!(signature_header(&[]), "sha256=");
}

#[test]
fn shared_secret_must_match_exactly() {
    assert!(SecretValidator::validate(Some("s3cret"), "s3cret").is_ok());
    assert!(matches!(SecretValidator::validate(Some("s3cre"), "s3cret"), Err(ApiError::Auth)));
    assert!(matches!(SecretValidator::validate(None, "s3cret"), Err(ApiError::Auth)));
    assert!(HfWebhookSecretValidator::validate(Some("k"), "k").is_ok());
    assert!(matches!(HfWebhookSecretValidator::validate(Some("K"), "k"), Err(ApiError::Auth)));
}

#[test]
fn errors_map_to_statuses() {
    assert_eq!(ApiError::Auth.to_response(), (401, "401 Unauthorized".to_string()));
    assert_eq!(ApiError::SignatureMismatch.to_response(), (403, "403 Forbidden".to_string()));
    assert_eq!(ApiError::IndexationInProgress.to_response().0, 409);
    assert_eq!(ApiError::MalformedWebhook("m".to_string()).to_response(), (400, "m".to_string()));
    assert_eq!(ApiError::QueueFull.to_response().0, 503);
    assert_eq!(ApiError::Sqlx("boom".to_string()).to_response(), (500, "Internal server error".to_string()));
    assert!(ApiError::Sqlx("boom".to_string()).is_internal());
    assert!(!ApiError::Auth.is_internal());
}

#[test]
fn names_and_keys() {
    assert_eq!(qualified_id(Source::Github, "7"), "github:7");
    assert_eq!(qualified_id(Source::HuggingFace, "ab"), "huggingface:ab");
    assert_eq!(Action::Edited.name(), "edited");
    assert_eq!(Source::HuggingFace.name(), "HuggingFace");
    let repo = RepositoryData { full_name: "org/repo".to_string(), source: Source::Github };
    assert_eq!(repo.describe(), "Github repo 'org/repo'");
    assert_eq!(IssueActionType::Opened.to_action(), Action::Created);
    assert_eq!(CommentActionType::Deleted.to_action(), Action::Deleted);
    assert_eq!(HfAction::Update.to_action(), Action::Edited);
    assert_eq!(Scope::DiscussionComment.name(), "discussion.comment");
    assert_eq!(HfAction::Create.name(), "create");
    assert_eq!(CommentActionType::Created.name(), "created");
}

#[test]
fn request_ids_are_kept_or_generated() {
    assert_eq!(RequestId::new("id-1".to_string()).0, "id-1");
    assert_eq!(RequestId::from_header(Some("abc"), "fresh".to_string()).0, "abc");
    assert_eq!(RequestId::from_header(None, "fresh".to_string()).0, "fresh");
}
