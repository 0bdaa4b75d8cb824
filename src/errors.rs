//! Errors of the inbound boundary and the responses they become.
use vstd::prelude::*;
use crate::retry::EmbeddingError;

verus! {

#[derive(Clone, Debug)]
pub enum ApiError {
    /// The shared secret is missing or wrong.
    Auth,
    Axum(String),
    Embedding(EmbeddingError),
    Hmac(String),
    SerdeJson(String),
    /// The payload's signature does not match the secret.
    SignatureMismatch,
    Sqlx(String),
    ToStr(String),
    /// An indexation of the repository is under way.
    IndexationInProgress,
    /// The payload lacks a part its event needs.
    MalformedWebhook(String),
    /// The event queue is full: the request is refused rather than held.
    QueueFull,
    /// The event queue no longer takes events.
    QueueClosed,
}

/// HTTP status of the response to an error.
pub open spec fn status_of(e: ApiError) -> u16 {
    match e {
        ApiError::Auth => 401,
        ApiError::SignatureMismatch => 403,
        ApiError::IndexationInProgress => 409,
        ApiError::MalformedWebhook(_) => 400,
        ApiError::QueueFull => 503,
        _ => 500,
    }
}

/// Message in the body of the response to an error.
pub open spec fn message_of(e: ApiError) -> Seq<char> {
    match e {
        ApiError::Auth => "401 Unauthorized"@,
        ApiError::SignatureMismatch => "403 Forbidden"@,
        ApiError::IndexationInProgress => "indexation already in progress"@,
        ApiError::MalformedWebhook(m) => m@,
        ApiError::QueueFull => "503 Service Unavailable"@,
        _ => "Internal server error"@,
    }
}

/// Internal errors are logged when answered; the answer does not reveal them.
pub open spec fn is_internal(e: ApiError) -> bool {
    status_of(e) == 500
}

impl ApiError {
    /// The response's status and message.
    pub fn to_response(&self) -> (r: (u16, String))
        ensures
            r.0 == status_of(*self),
            r.1@ == message_of(*self),
    {
        match self {
            ApiError::Auth => (401, String::from_str("401 Unauthorized")),
            ApiError::SignatureMismatch => (403, String::from_str("403 Forbidden")),
            ApiError::IndexationInProgress => (409, String::from_str("indexation already in progress")),
            ApiError::MalformedWebhook(m) => (400, m.clone()),
            ApiError::QueueFull => (503, String::from_str("503 Service Unavailable")),
            _ => (500, String::from_str("Internal server error")),
        }
    }

    /// Whether the error is an internal one, to be logged.
    pub fn is_internal(&self) -> (r: bool)
        ensures
            r == is_internal(*self),
    {
        match self {
            ApiError::Auth | ApiError::SignatureMismatch | ApiError::IndexationInProgress
            | ApiError::MalformedWebhook(_) | ApiError::QueueFull => false,
            _ => true,
        }
    }
}

} // verus!
