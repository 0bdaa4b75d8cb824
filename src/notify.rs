//! Texts sent to people: the bot's comment on a new issue and the chat
//! messages that announce it.
use vstd::prelude::*;
use crate::config::MessageConfig;
use crate::events::Source;
use crate::text::{decimal_of, i64_to_string};

verus! {

/// One of the issues nearest to a new one.
#[derive(Clone, Debug)]
pub struct ClosestIssue {
    pub title: String,
    pub number: i32,
    pub html_url: String,
}

/// Lines joined by newlines.
pub open spec fn joined(lines: Seq<Seq<char>>) -> Seq<char>
    decreases lines.len(),
{
    if lines.len() == 0 {
        Seq::empty()
    } else if lines.len() == 1 {
        lines[0]
    } else {
        joined(lines.drop_last()) + "\n"@ + lines.last()
    }
}

/// `- <title> ([#<number>](<html_url>))`
pub open spec fn comment_line(c: ClosestIssue) -> Seq<char> {
    "- "@ + c.title@ + " ([#"@ + decimal_of(c.number as int) + "]("@ + c.html_url@ + "))"@
}

/// `• <title> (<<html_url>|#<number>>)`
pub open spec fn chat_line(c: ClosestIssue) -> Seq<char> {
    "• "@ + c.title@ + " (<"@ + c.html_url@ + "|#"@ + decimal_of(c.number as int) + ">)"@
}

pub open spec fn comment_list_spec(cs: Seq<ClosestIssue>) -> Seq<char> {
    joined(cs.map_values(|c: ClosestIssue| comment_line(c)))
}

/// Chat lines, each preceded by a newline.
pub open spec fn chat_lines(cs: Seq<ClosestIssue>) -> Seq<char>
    decreases cs.len(),
{
    if cs.len() == 0 {
        Seq::empty()
    } else {
        chat_lines(cs.drop_last()) + "\n"@ + chat_line(cs.last())
    }
}

pub open spec fn chat_message_spec(summary: Seq<char>, html_url: Seq<char>, number: int, cs: Seq<ClosestIssue>) -> Seq<char> {
    "Closest issues for <"@ + html_url + "|#"@ + decimal_of(number) + ">:\n"@ + summary + "\n"@ + chat_lines(cs)
}

pub open spec fn thread_message_spec(title: Seq<char>, body: Seq<char>) -> Seq<char> {
    "*"@ + title + "*\n---\n"@ + body
}

pub open spec fn comment_url_suffix(s: Source) -> Seq<char> {
    match s {
        Source::Github => "/comments"@,
        Source::HuggingFace => "/comment"@,
    }
}

fn comment_line_of(c: &ClosestIssue) -> (r: String)
    ensures
        r@ == comment_line(*c),
{
    let mut r = String::from_str("- ");
    r.append(c.title.as_str());
    r.append(" ([#");
    let n = i64_to_string(c.number as i64);
    r.append(n.as_str());
    r.append("](");
    r.append(c.html_url.as_str());
    r.append("))");
    r
}

fn chat_line_of(c: &ClosestIssue) -> (r: String)
    ensures
        r@ == chat_line(*c),
{
    let mut r = String::from_str("• ");
    r.append(c.title.as_str());
    r.append(" (<");
    r.append(c.html_url.as_str());
    r.append("|#");
    let n = i64_to_string(c.number as i64);
    r.append(n.as_str());
    r.append(">)");
    r
}

/// The related issues as markdown list items, one per line.
pub fn comment_list(cs: &Vec<ClosestIssue>) -> (r: String)
    ensures
        r@ == comment_list_spec(cs@),
{
    let mut r = String::new();
    let mut i: usize = 0;
    while i < cs.len()
        invariant
            i <= cs@.len(),
            r@ == comment_list_spec(cs@.subrange(0, i as int)),
        decreases cs.len() - i,
    {
        let line = comment_line_of(&cs[i]);
        let ghost prev = cs@.subrange(0, i as int).map_values(|c: ClosestIssue| comment_line(c));
        let ghost next = cs@.subrange(0, i as int + 1).map_values(|c: ClosestIssue| comment_line(c));
        proof {
            assert(next.drop_last() =~= prev);
            assert(next.last() == comment_line(cs@[i as int]));
        }
        if i > 0 {
            r.append("\n");
        }
        r.append(line.as_str());
        proof {
            if i == 0 {
                assert(prev.len() == 0);
                assert(r@ =~= joined(next));
            }
        }
        i = i + 1;
    }
    proof {
        assert(cs@.subrange(0, cs@.len() as int) =~= cs@);
    }
    r
}

/// The body of the bot's comment: the configured opening, the list, the
/// configured closing.
pub fn comment_body(cfg: &MessageConfig, list: &str) -> (r: String)
    ensures
        r@ == cfg.pre@ + list@ + cfg.post@,
{
    let mut r = cfg.pre.clone();
    r.append(list);
    r.append(cfg.post.as_str());
    r
}

/// Where and what the bot comments on a new issue of `source`, or nothing when
/// commenting is switched off.
pub fn comment_request(
    enabled: bool,
    source: Source,
    cfg: &MessageConfig,
    issue_url: &str,
    list: &str,
) -> (r: Option<(String, String)>)
    ensures
        enabled <==> r is Some,
        r matches Some((url, body)) ==> url@ == issue_url@ + comment_url_suffix(source)
            && body@ == cfg.pre@ + list@ + cfg.post@,
{
    if !enabled {
        return None;
    }
    let mut url = String::from_str(issue_url);
    match source {
        Source::Github => url.append("/comments"),
        Source::HuggingFace => url.append("/comment"),
    }
    Some((url, comment_body(cfg, list)))
}

/// The chat message that announces a new issue with its summary and the
/// issues nearest to it.
pub fn chat_message(summary: &str, html_url: &str, number: i32, cs: &Vec<ClosestIssue>) -> (r: String)
    ensures
        r@ == chat_message_spec(summary@, html_url@, number as int, cs@),
{
    let mut r = String::from_str("Closest issues for <");
    r.append(html_url);
    r.append("|#");
    let n = i64_to_string(number as i64);
    r.append(n.as_str());
    r.append(">:\n");
    r.append(summary);
    r.append("\n");
    let ghost head = r@;
    let mut i: usize = 0;
    while i < cs.len()
        invariant
            i <= cs@.len(),
            r@ == head + chat_lines(cs@.subrange(0, i as int)),
            head == chat_message_spec(summary@, html_url@, number as int, Seq::empty()),
        decreases cs.len() - i,
    {
        let line = chat_line_of(&cs[i]);
        r.append("\n");
        r.append(line.as_str());
        proof {
            let next = cs@.subrange(0, i as int + 1);
            assert(next.drop_last() =~= cs@.subrange(0, i as int));
        }
        i = i + 1;
    }
    proof {
        assert(cs@.subrange(0, cs@.len() as int) =~= cs@);
    }
    r
}

/// The threaded reply that carries the issue's own title and body.
pub fn thread_message(title: &str, body: &str) -> (r: String)
    ensures
        r@ == thread_message_spec(title@, body@),
{
    let mut r = String::from_str("*");
    r.append(title);
    r.append("*\n---\n");
    r.append(body);
    r
}

/// A message posted to the chat; `thread_ts` makes it a reply.
#[derive(Clone, Debug)]
pub struct SlackBody {
    pub channel: String,
    pub text: String,
    pub thread_ts: Option<String>,
}

impl SlackBody {
    pub fn new(channel: &str, text: String, thread_ts: Option<String>) -> (r: Self)
        ensures
            r.channel@ == channel@,
            r.text == text,
            r.thread_ts == thread_ts,
    {
        SlackBody { channel: String::from_str(channel), text, thread_ts }
    }
}

} // verus!
