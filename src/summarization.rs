//! The summarizer collaborator: the chat-completion request that asks for a
//! summary, and the clean-up of the answer.
use vstd::prelude::*;

verus! {

/// Upper bound on the length of a summary, in tokens.
pub const SUMMARY_MAX_TOKENS: u32 = 100;

#[derive(Clone, Debug)]
pub struct Message {
    pub content: String,
    pub role: String,
}

#[derive(Clone, Debug)]
pub struct ChatCompletionsRequest {
    pub max_tokens: u32,
    pub messages: Vec<Message>,
    pub model: String,
    pub stream: bool,
}

#[derive(Clone, Debug)]
pub struct ChatCompletionsChoice {
    pub message: Message,
}

#[derive(Clone, Debug)]
pub struct ChatCompletionsResponse {
    pub choices: Vec<ChatCompletionsChoice>,
}

/// The request for a summary of `text`: the system prompt, then the text as
/// the user's message; no streaming.
pub fn chat_request(model: &str, system_prompt: &str, text: String) -> (r: ChatCompletionsRequest)
    ensures
        r.max_tokens == SUMMARY_MAX_TOKENS,
        r.model@ == model@,
        !r.stream,
        r.messages@.len() == 2,
        r.messages@[0].role@ == "system"@,
        r.messages@[0].content@ == system_prompt@,
        r.messages@[1].role@ == "user"@,
        r.messages@[1].content == text,
{
    let mut messages: Vec<Message> = Vec::new();
    messages.push(Message { content: String::from_str(system_prompt), role: String::from_str("system") });
    messages.push(Message { content: text, role: String::from_str("user") });
    ChatCompletionsRequest { max_tokens: SUMMARY_MAX_TOKENS, messages, model: String::from_str(model), stream: false }
}

/// Every occurrence of `from` in `s`, found left to right without overlap,
/// replaced by `to`.
pub open spec fn replaced(s: Seq<char>, from: Seq<char>, to: Seq<char>) -> Seq<char>
    decreases s.len(),
{
    if from.len() == 0 || s.len() < from.len() {
        s
    } else if s.subrange(0, from.len() as int) == from {
        to + replaced(s.subrange(from.len() as int, s.len() as int), from, to)
    } else {
        seq![s[0]] + replaced(s.drop_first(), from, to)
    }
}

/// Relies on `str::replace`: each non-overlapping match of a non-empty
/// pattern, from left to right, replaced.
#[verifier::external_body]
fn replace_all(s: &str, from: &str, to: &str) -> (r: String)
    requires
        from@.len() > 0,
    ensures
        r@ == replaced(s@, from@, to@),
{
    s.replace(from, to)
}

pub open spec fn opening_tag(t: Seq<char>) -> Seq<char> {
    "<"@ + t + ">"@
}

pub open spec fn closing_tag(t: Seq<char>) -> Seq<char> {
    "</"@ + t + ">"@
}

/// The text with the opening and closing tags of every special token removed,
/// token after token.
pub open spec fn without_tokens(s: Seq<char>, tokens: Seq<Seq<char>>) -> Seq<char>
    decreases tokens.len(),
{
    if tokens.len() == 0 {
        s
    } else {
        let t = tokens.last();
        replaced(
            replaced(without_tokens(s, tokens.drop_last()), opening_tag(t), Seq::empty()),
            closing_tag(t),
            Seq::empty(),
        )
    }
}

/// The content of the first choice; empty when there is none.
pub open spec fn first_content(r: ChatCompletionsResponse) -> Seq<char> {
    if r.choices@.len() > 0 {
        r.choices@[0].message.content@
    } else {
        Seq::empty()
    }
}

/// The summary an answer carries: its first choice, without the special
/// tokens' tags.
pub fn summary_of(response: &ChatCompletionsResponse, special_tokens: &Vec<String>) -> (r: String)
    ensures
        r@ == without_tokens(first_content(*response), special_tokens@.map_values(|t: String| t@)),
{
    let mut res = if response.choices.len() > 0 {
        response.choices[0].message.content.clone()
    } else {
        String::new()
    };
    let ghost tokens = special_tokens@.map_values(|t: String| t@);
    let mut i: usize = 0;
    while i < special_tokens.len()
        invariant
            i <= special_tokens@.len(),
            tokens == special_tokens@.map_values(|t: String| t@),
            res@ == without_tokens(first_content(*response), tokens.subrange(0, i as int)),
        decreases special_tokens.len() - i,
    {
        let token = special_tokens[i].as_str();
        let mut open = String::from_str("<");
        open.append(token);
        open.append(">");
        let mut close = String::from_str("</");
        close.append(token);
        close.append(">");
        proof {
            reveal_strlit("<");
            reveal_strlit("</");
        }
        let once = replace_all(res.as_str(), open.as_str(), "");
        res = replace_all(once.as_str(), close.as_str(), "");
        proof {
            reveal_strlit("");
            assert(tokens.subrange(0, i as int + 1).drop_last() =~= tokens.subrange(0, i as int));
            assert(""@ =~= Seq::<char>::empty());
        }
        i = i + 1;
    }
    proof {
        assert(tokens.subrange(0, special_tokens@.len() as int) =~= tokens);
    }
    res
}

} // verus!
