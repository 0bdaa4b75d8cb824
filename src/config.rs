//! Settings of the bot and of each collaborator it talks to.
use vstd::prelude::*;

verus! {

#[derive(Clone, Debug)]
pub struct EmbeddingApiConfig {
    pub auth_token: String,
    pub url: String,
}

#[derive(Clone, Debug)]
pub struct SummarizationApiConfig {
    pub auth_token: String,
    pub model: String,
    pub special_tokens_used: Vec<String>,
    pub system_prompt: String,
    pub url: String,
}

#[derive(Clone, Debug)]
pub struct DatabaseConfig {
    pub connection_string: String,
    pub max_connections: u32,
}

#[derive(Clone, Debug)]
pub struct ServerConfig {
    pub ip: String,
    pub metrics_port: u16,
    pub port: u16,
}

#[derive(Clone, Debug)]
pub struct GithubApiConfig {
    pub auth_token: String,
    pub comments_enabled: bool,
}

#[derive(Clone, Debug)]
pub struct HuggingfaceApiConfig {
    pub auth_token: String,
    pub comments_enabled: bool,
}

/// The bot's comment is `pre`, then one line per related issue, then `post`.
#[derive(Clone, Debug)]
pub struct MessageConfig {
    pub pre: String,
    pub post: String,
}

#[derive(Clone, Debug)]
pub struct SlackConfig {
    pub auth_token: String,
    pub channel: String,
    pub chat_write_url: String,
}

#[derive(Clone, Debug)]
pub struct IssueBotConfig {
    pub auth_token: String,
    pub database: DatabaseConfig,
    pub embedding_api: EmbeddingApiConfig,
    pub github_api: GithubApiConfig,
    pub huggingface_api: HuggingfaceApiConfig,
    pub message_config: MessageConfig,
    pub server: ServerConfig,
    pub slack: SlackConfig,
    pub summarization_api: SummarizationApiConfig,
}

} // verus!
