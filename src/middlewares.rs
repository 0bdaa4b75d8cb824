//! Identifiers that tie the log lines of one inbound request together.
use vstd::prelude::*;

verus! {

/// Header that carries a request's id, inbound and outbound.
pub const X_REQUEST_ID: &'static str = "X-Request-Id";

/// Length of a generated request id.
pub const REQUEST_ID_LEN: usize = 21;

#[derive(Clone, Debug)]
pub struct RequestId(pub String);

impl RequestId {
    /// The id `id`.
    pub fn new(id: String) -> (r: Self)
        ensures
            r.0 == id,
    {
        RequestId(id)
    }

    /// The id a client sent, or `generated` when it sent none.
    pub fn from_header(header: Option<&str>, generated: String) -> (r: Self)
        ensures
            header matches Some(h) ==> r.0@ == h@,
            header is None ==> r.0 == generated,
    {
        match header {
            Some(h) => RequestId(String::from_str(h)),
            None => RequestId(generated),
        }
    }
}

} // verus!
