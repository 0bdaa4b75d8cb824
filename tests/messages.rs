use issue_bot::config::MessageConfig;
use issue_bot::events::Source;
use issue_bot::notify::{chat_message, comment_body, comment_list, comment_request, thread_message, ClosestIssue, SlackBody};
use issue_bot::summarization::{chat_request, summary_of, ChatCompletionsChoice, ChatCompletionsResponse, Message};
use issue_bot::ratelimit::parse_i64;
use issue_bot::text::{i64_to_string, issue_text};

fn two() -> Vec<ClosestIssue> {
    vec![
        ClosestIssue { title: "Test issue".to_string(), number: 29, html_url: "https://x/29".to_string() },
        ClosestIssue { title: "Another issue".to_string(), number: -30, html_url: "https://x/30".to_string() },
    ]
}

#[test]
fn comment_lists_related_issues_between_configured_texts() {
    let list = comment_list(&two());
    assert_eq!(list, "- Test issue ([#29](https://x/29))\n- Another issue ([#-30](https://x/30))");
    assert_eq!(comment_list(&vec![]), "");
    let cfg = MessageConfig { pre: "Hello!\n".to_string(), post: "\nThanks".to_string() };
    assert_eq!(comment_body(&cfg, "L"), "Hello!\nL\nThanks");
    let (url, body) = comment_request(true, Source::Github, &cfg, "https://api/i/1", "L").unwrap();
    assert_eq!(url, "https://api/i/1/comments");
    assert_eq!(body, "Hello!\nL\nThanks");
    let (url, _) = comment_request(true, Source::HuggingFace, &cfg, "https://hf/d/1", "L").unwrap();
    assert_eq!(url, "https://hf/d/1/comment");
    assert!(comment_request(false, Source::Github, &cfg, "https://api/i/1", "L").is_none());
}

#[test]
fn chat_messages_announce_the_issue() {
    assert_eq!(chat_message("sum", "https://x/1", 1, &vec![]), "Closest issues for <https://x/1|#1>:\nsum\n");
    assert_eq!(
        chat_message("sum", "https://x/1", 1, &two()),
        "Closest issues for <https://x/1|#1>:\nsum\n\n• Test issue (<https://x/29|#29>)\n• Another issue (<https://x/30|#-30>)"
    );
    assert_eq!(thread_message("T", "B"), "*T*\n---\nB");
    let body = SlackBody::new("chan", "text".to_string(), Some("123.4".to_string()));
    assert_eq!(body.channel, "chan");
    assert_eq!(body.thread_ts, Some("123.4".to_string()));
}

#[test]
fn summary_request_and_cleanup() {
    let req = chat_request("m", "be brief", "# T\nB".to_string());
    assert_eq!(req.max_tokens, 100);
    assert!(!req.stream);
    assert_eq!(req.model, "m");
    assert_eq!(req.messages.len(), 2);
    assert_eq!(req.messages[0].role, "system");
    assert_eq!(req.messages[0].content, "be brief");
    assert_eq!(req.messages[1].role, "user");
    assert_eq!(req.messages[1].content, "# T\nB");
    let answer = ChatCompletionsResponse {
        choices: vec![
            ChatCompletionsChoice { message: Message { content: "<think>hmm</think>Short <b>summary</b>".to_string(), role: "assistant".to_string() } },
            ChatCompletionsChoice { message: Message { content: "ignored".to_string(), role: "assistant".to_string() } },
        ],
    };
    let tokens = vec!["think".to_string(), "b".to_string()];
    assert_eq!(summary_of(&answer, &tokens), "hmmShort summary");
    assert_eq!(summary_of(&answer, &vec![]), "<think>hmm</think>Short <b>summary</b>");
    assert_eq!(summary_of(&ChatCompletionsResponse { choices: vec![] }, &tokens), "");
}

#[test]
fn issue_text_without_comments_is_title_and_body() {
    assert_eq!(issue_text("T", "B", &vec![]), "# T\nB");
    assert_eq!(issue_text("", "", &vec!["a".to_string(), "".to_string()]), "# \n\n----\nComment: a\n----\nComment: ");
}

#[test]
fn integers_render_and_parse_in_decimal() {
    assert_eq!(i64_to_string(0), "0");
    assert_eq!(i64_to_string(-30), "-30");
    assert_eq!(i64_to_string(i64::MIN), "-9223372036854775808");
    assert_eq!(i64_to_string(i64::MAX), "9223372036854775807");
    assert_eq!(parse_i64("-9223372036854775808"), Some(i64::MIN));
    assert_eq!(parse_i64("9223372036854775807"), Some(i64::MAX));
    assert_eq!(parse_i64("9223372036854775808"), None);
    assert_eq!(parse_i64("-9223372036854775809"), None);
    assert_eq!(parse_i64("123456789012345678901234567890"), None);
    assert_eq!(parse_i64("+12"), Some(12));
    assert_eq!(parse_i64("007"), Some(7));
    assert_eq!(parse_i64("+"), None);
    assert_eq!(parse_i64("-"), None);
    assert_eq!(parse_i64(""), None);
    assert_eq!(parse_i64("1a"), None);
    assert_eq!(parse_i64(" 1"), None);
}
