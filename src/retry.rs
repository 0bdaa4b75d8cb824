//! Retry policy around the embedding call: bounded exponential backoff on
//! timeouts and server errors, immediate failure on client errors.
use vstd::prelude::*;

verus! {

/// Retries allowed after the first attempt.
pub const MAX_RETRIES: u32 = 5;

/// Why no embedding could be had.
#[derive(Clone, Debug, PartialEq, Eq)]
pub enum EmbeddingError {
    /// The service refused the request (a 4xx status); not retried.
    HttpClientError(u16),
    InvalidHeaderValue(String),
    Io(String),
    Join(String),
    /// Every retry timed out or met a server error.
    MaxRetriesExceeded(u32),
    /// The response held no embedding.
    MissingEmbedding,
    Reqwest(String),
    SerdeJson(String),
}

/// How one attempt at the embedding call ended.
#[derive(Clone, Debug)]
pub enum Attempt {
    /// The request timed out.
    TimedOut,
    /// The request failed in transport for another reason.
    TransportError(String),
    /// A response arrived with this status.
    Status(u16),
}

/// What to do after an attempt.
#[derive(Clone, Debug)]
pub enum RetryDecision {
    /// Sleep this many seconds, then try again.
    Retry { backoff_secs: u64 },
    /// Give up with this error.
    Fail(EmbeddingError),
    /// The response succeeded: read its payload.
    ReadPayload,
}

/// `2^n`.
pub open spec fn pow2(n: nat) -> nat
    decreases n,
{
    if n == 0 {
        1
    } else {
        2 * pow2((n - 1) as nat)
    }
}

pub open spec fn is_client_error(status: u16) -> bool {
    400 <= status <= 499
}

/// Retry once more, or give up when the bound is spent.
pub open spec fn retry_after(retries: nat) -> (nat, RetryDecision) {
    let n = retries + 1;
    if n > MAX_RETRIES {
        (n, RetryDecision::Fail(EmbeddingError::MaxRetriesExceeded(MAX_RETRIES)))
    } else {
        (n, RetryDecision::Retry { backoff_secs: pow2(n) as u64 })
    }
}

/// The retry count after an attempt, and the decision taken on it.
pub open spec fn decide(retries: nat, a: Attempt) -> (nat, RetryDecision) {
    match a {
        Attempt::TimedOut => retry_after(retries),
        Attempt::TransportError(m) => (retries, RetryDecision::Fail(EmbeddingError::Reqwest(m))),
        Attempt::Status(s) => if is_client_error(s) {
            (retries, RetryDecision::Fail(EmbeddingError::HttpClientError(s)))
        } else if s == 200 {
            (retries, RetryDecision::ReadPayload)
        } else {
            retry_after(retries)
        },
    }
}

/// The decisions taken on a run of attempts, in order.
pub open spec fn run_attempts(retries: nat, attempts: Seq<Attempt>) -> Seq<RetryDecision>
    decreases attempts.len(),
{
    if attempts.len() == 0 {
        Seq::empty()
    } else {
        let (n, d) = decide(retries, attempts[0]);
        seq![d] + run_attempts(n, attempts.drop_first())
    }
}

/// Seconds slept over a run of decisions.
pub open spec fn backoff_total(ds: Seq<RetryDecision>) -> nat
    decreases ds.len(),
{
    if ds.len() == 0 {
        0
    } else {
        (match ds.last() {
            RetryDecision::Retry { backoff_secs } => backoff_secs as nat,
            _ => 0,
        }) + backoff_total(ds.drop_last())
    }
}

/// State of one logical embedding call across its attempts.
pub struct RetryPolicy {
    pub retries: u32,
}

impl RetryPolicy {
    pub fn new() -> (r: Self)
        ensures
            r.retries == 0,
    {
        RetryPolicy { retries: 0 }
    }

    fn retry(&mut self) -> (d: RetryDecision)
        requires
            old(self).retries <= MAX_RETRIES,
        ensures
            (final(self).retries as nat, d) == retry_after(old(self).retries as nat),
    {
        self.retries = self.retries + 1;
        if self.retries > MAX_RETRIES {
            return RetryDecision::Fail(EmbeddingError::MaxRetriesExceeded(MAX_RETRIES));
        }
        let mut b: u64 = 1;
        let mut k: u32 = 0;
        while k < self.retries
            invariant
                k <= self.retries <= MAX_RETRIES,
                b == pow2(k as nat),
                b <= 32,
            decreases self.retries - k,
        {
            proof {
                assert(pow2((k + 1) as nat) == 2 * pow2(k as nat));
                if k + 1 <= 5 {
                    assert(pow2(1) == 2 && pow2(2) == 4 && pow2(3) == 8 && pow2(4) == 16 && pow2(5) == 32) by {
                        reveal_with_fuel(pow2, 6);
                    }
                }
            }
            b = b * 2;
            k = k + 1;
        }
        RetryDecision::Retry { backoff_secs: b }
    }

    /// Decides what follows an attempt: a backoff and another attempt, a
    /// terminal error, or reading the payload of a successful response.
    pub fn on_attempt(&mut self, a: Attempt) -> (d: RetryDecision)
        requires
            old(self).retries <= MAX_RETRIES,
        ensures
            (final(self).retries as nat, d) == decide(old(self).retries as nat, a),
    {
        match a {
            Attempt::TimedOut => self.retry(),
            Attempt::TransportError(m) => RetryDecision::Fail(EmbeddingError::Reqwest(m)),
            Attempt::Status(s) => {
                if 400 <= s && s <= 499 {
                    RetryDecision::Fail(EmbeddingError::HttpClientError(s))
                } else if s == 200 {
                    RetryDecision::ReadPayload
                } else {
                    self.retry()
                }
            },
        }
    }
}

/// Of the embeddings a successful response holds, the one that is kept: the
/// last. None at all is an error of its own.
pub fn pick_embedding(count: usize) -> (r: Result<usize, EmbeddingError>)
    ensures
        count > 0 ==> r == Ok::<usize, EmbeddingError>((count - 1) as usize),
        count == 0 ==> r == Err::<usize, EmbeddingError>(EmbeddingError::MissingEmbedding),
{
    if count == 0 {
        Err(EmbeddingError::MissingEmbedding)
    } else {
        Ok(count - 1)
    }
}

/// A call that times out on every attempt sleeps `2^1`, ..., `2^5` seconds
/// between its six attempts, 62 seconds in all, and then fails with
/// `MaxRetriesExceeded` after exactly five retries.
pub proof fn lemma_timeouts_exhaust_retries()
    ensures
        ({
            let ds = run_attempts(0, Seq::new(6, |i: int| Attempt::TimedOut));
            &&& ds.len() == 6
            &&& forall|k: int| 0 <= k < 5 ==> ds[k] == RetryDecision::Retry { backoff_secs: pow2((k + 1) as nat) as u64 }
            &&& ds[5] == RetryDecision::Fail(EmbeddingError::MaxRetriesExceeded(5))
            &&& backoff_total(ds) == 2 + 4 + 8 + 16 + 32
        }),
{
    reveal_with_fuel(pow2, 6);
    let a = Seq::new(6, |i: int| Attempt::TimedOut);
    let d = |k: nat| RetryDecision::Retry { backoff_secs: pow2(k) as u64 };
    let f = RetryDecision::Fail(EmbeddingError::MaxRetriesExceeded(5));
    assert(a.drop_first() =~= Seq::new(5, |i: int| Attempt::TimedOut));
    assert(a.drop_first().drop_first() =~= Seq::new(4, |i: int| Attempt::TimedOut));
    assert(a.drop_first().drop_first().drop_first() =~= Seq::new(3, |i: int| Attempt::TimedOut));
    assert(a.drop_first().drop_first().drop_first().drop_first() =~= Seq::new(2, |i: int| Attempt::TimedOut));
    assert(a.drop_first().drop_first().drop_first().drop_first().drop_first() =~= Seq::new(1, |i: int| Attempt::TimedOut));
    assert(Seq::new(1, |i: int| Attempt::TimedOut).drop_first() =~= Seq::<Attempt>::empty());
    assert(run_attempts(6, Seq::<Attempt>::empty()) == Seq::<RetryDecision>::empty());
    assert(decide(5, Attempt::TimedOut) == (6nat, f));
    assert(run_attempts(5, Seq::new(1, |i: int| Attempt::TimedOut)) == seq![f] + run_attempts(6, Seq::<Attempt>::empty()));
    assert(run_attempts(5, Seq::new(1, |i: int| Attempt::TimedOut)) =~= seq![f]);
    assert(run_attempts(4, Seq::new(2, |i: int| Attempt::TimedOut)) =~= seq![d(5), f]);
    assert(run_attempts(3, Seq::new(3, |i: int| Attempt::TimedOut)) =~= seq![d(4), d(5), f]);
    assert(run_attempts(2, Seq::new(4, |i: int| Attempt::TimedOut)) =~= seq![d(3), d(4), d(5), f]);
    assert(run_attempts(1, Seq::new(5, |i: int| Attempt::TimedOut)) =~= seq![d(2), d(3), d(4), d(5), f]);
    let ds = run_attempts(0, a);
    assert(ds =~= seq![d(1), d(2), d(3), d(4), d(5), f]);
    reveal_with_fuel(backoff_total, 7);
    assert(ds.drop_last() =~= seq![d(1), d(2), d(3), d(4), d(5)]);
    assert(ds.drop_last().drop_last() =~= seq![d(1), d(2), d(3), d(4)]);
    assert(ds.drop_last().drop_last().drop_last() =~= seq![d(1), d(2), d(3)]);
    assert(ds.drop_last().drop_last().drop_last().drop_last() =~= seq![d(1), d(2)]);
    assert(ds.drop_last().drop_last().drop_last().drop_last().drop_last() =~= seq![d(1)]);
    assert(seq![d(1)].drop_last() =~= Seq::<RetryDecision>::empty());
}

} // verus!
