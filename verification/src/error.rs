//! The crate-wide error: the errors of the parts, plain messages, and context chains.

use vstd::prelude::*;

use crate::impact::error::{impact_message, ImpactModelError};
use crate::latency::error::{latency_message, LatencyModelError};
use crate::queue::EventQueueError;
use crate::text::push_str;
use crate::volatility::VolatilityError;

verus! {

/// An error of any part of the crate.
#[derive(Debug)]
pub enum Error {
    /// A market impact model failed.
    Impact(ImpactModelError),
    /// A volatility estimator failed.
    Volatility(VolatilityError),
    /// A latency model failed.
    Latency(LatencyModelError),
    /// The event queue failed.
    Queue(EventQueueError),
    /// Any other failure.
    Other(String),
    /// An error with a note on what was being done.
    WithContext {
        /// What was being done.
        context: String,
        /// The error.
        source: Box<Error>,
    },
}

/// How loudly an error should be logged.
#[derive(Debug, Clone, Copy, PartialEq, Eq, Structural)]
pub enum Severity {
    /// A transient failure: a warning.
    Warn,
    /// A lasting failure: an error.
    Error,
}

/// Result type of the crate.
pub type Result<T> = core::result::Result<T, Error>;

/// Text of an error: that of the part for part errors, `core error: ...` for
/// others, and `context: error` down a context chain.
pub open spec fn error_message(e: Error) -> Seq<char>
    decreases e,
{
    match e {
        Error::Impact(x) => impact_message(x),
        Error::Volatility(_) => "窗口大小为零"@,
        Error::Latency(x) => latency_message(x),
        Error::Queue(_) => "事件队列为空"@,
        Error::Other(s) => "core error: "@ + s@,
        Error::WithContext { context, source } => context@ + ": "@ + error_message(*source),
    }
}

/// The error at the bottom of a context chain.
pub open spec fn root_of(e: Error) -> Error
    decreases e,
{
    match e {
        Error::WithContext { source, .. } => root_of(*source),
        _ => e,
    }
}

impl Error {
    /// Whether retrying could help: no error of the crate is transient.
    pub fn is_retryable(&self) -> (r: bool)
        ensures
            !r,
    {
        match self {
            Error::Impact(_) => false,
            Error::Volatility(_) => false,
            Error::Latency(_) => false,
            Error::Queue(_) => false,
            Error::Other(_) => false,
            Error::WithContext { .. } => false,
        }
    }

    /// The error wrapped with a note on what was being done.
    pub fn context(self, ctx: &str) -> (r: Error)
        ensures
            r matches Error::WithContext { context, source } && context@ == ctx@ && *source == self,
    {
        Error::WithContext { context: ctx.to_owned(), source: Box::new(self) }
    }

    /// How loudly to log the error: a warning when retrying could help, else an error.
    pub fn log_level(&self) -> (r: Severity)
        ensures
            r == Severity::Error,
    {
        if self.is_retryable() {
            Severity::Warn
        } else {
            Severity::Error
        }
    }

    /// The error at the bottom of the context chain.
    pub fn root_cause(&self) -> (r: &Error)
        ensures
            *r == root_of(*self),
        decreases self,
    {
        match self {
            Error::WithContext { source, .. } => source.root_cause(),
            _ => self,
        }
    }

    /// Text of the error.
    pub fn message(&self) -> (r: String)
        ensures
            r@ == error_message(*self),
        decreases self,
    {
        match self {
            Error::Impact(e) => e.message(),
            Error::Volatility(e) => e.message(),
            Error::Latency(e) => e.message(),
            Error::Queue(e) => e.message(),
            Error::Other(s) => {
                let mut out = String::new();
                push_str(&mut out, "core error: ");
                push_str(&mut out, s.as_str());
                out
            },
            Error::WithContext { context, source } => {
                let mut out = String::new();
                push_str(&mut out, context.as_str());
                push_str(&mut out, ": ");
                let inner = source.message();
                push_str(&mut out, inner.as_str());
                assert(out@ =~= error_message(*self));
                out
            },
        }
    }
}

/// Adding context never changes the root cause, and a root cause carries no
/// context; the message of an error with context starts with the context.
pub proof fn context_keeps_root_cause(e: Error, ctx: String)
    ensures
        root_of(Error::WithContext { context: ctx, source: Box::new(e) }) == root_of(e),
        !(root_of(e) is WithContext),
        error_message(Error::WithContext { context: ctx, source: Box::new(e) }) == ctx@ + ": "@
            + error_message(e),
    decreases e,
{
    if let Error::WithContext { context, source } = e {
        context_keeps_root_cause(*source, context);
    }
}

impl From<ImpactModelError> for Error {
    fn from(e: ImpactModelError) -> (r: Error) {
        Error::Impact(e)
    }
}

impl vstd::std_specs::convert::FromSpecImpl<ImpactModelError> for Error {
    open spec fn obeys_from_spec() -> bool {
        true
    }

    open spec fn from_spec(v: ImpactModelError) -> Error {
        Error::Impact(v)
    }
}

impl From<VolatilityError> for Error {
    fn from(e: VolatilityError) -> (r: Error) {
        Error::Volatility(e)
    }
}

impl vstd::std_specs::convert::FromSpecImpl<VolatilityError> for Error {
    open spec fn obeys_from_spec() -> bool {
        true
    }

    open spec fn from_spec(v: VolatilityError) -> Error {
        Error::Volatility(v)
    }
}

impl From<LatencyModelError> for Error {
    fn from(e: LatencyModelError) -> (r: Error) {
        Error::Latency(e)
    }
}

impl vstd::std_specs::convert::FromSpecImpl<LatencyModelError> for Error {
    open spec fn obeys_from_spec() -> bool {
        true
    }

    open spec fn from_spec(v: LatencyModelError) -> Error {
        Error::Latency(v)
    }
}

impl From<EventQueueError> for Error {
    fn from(e: EventQueueError) -> (r: Error) {
        Error::Queue(e)
    }
}

impl vstd::std_specs::convert::FromSpecImpl<EventQueueError> for Error {
    open spec fn obeys_from_spec() -> bool {
        true
    }

    open spec fn from_spec(v: EventQueueError) -> Error {
        Error::Queue(v)
    }
}

/// Adds a note on what was being done to the error of a result.
pub trait ErrorContext<T> {
    /// The result with the note.
    type Output;

    /// Adds the note `ctx` to an error; leaves a success as it is.
    fn context(self, ctx: &str) -> Self::Output;
}

impl<T> ErrorContext<T> for core::result::Result<T, Error> {
    type Output = core::result::Result<T, Error>;

    fn context(self, ctx: &str) -> (r: core::result::Result<T, Error>)
        ensures
            self matches Ok(v) ==> r == Ok::<T, Error>(v),
            self matches Err(e) ==> r matches Err(Error::WithContext { context, source }) && context@
                == ctx@ && *source == e,
    {
        match self {
            Ok(v) => Ok(v),
            Err(e) => Err(e.context(ctx)),
        }
    }
}

/// What a retry loop does after an attempt fails.
#[derive(Debug, Clone, Copy, PartialEq, Eq, Structural)]
pub enum RetryStep {
    /// Give up and report the error.
    GiveUp,
    /// Wait the backoff of retry number `retry` (counting from 1), then try again.
    WaitAndRetry {
        /// Number of the retry about to be made.
        retry: usize,
    },
    /// Wait the backoff of retry number `retry`, then report the error: no attempt is left.
    WaitAndGiveUp {
        /// Number of the retry that will not be made.
        retry: usize,
    },
}

/// The step after attempt number `attempt` (counting from 0) of at most
/// `max_attempts` failed: an error that retrying cannot help is reported at
/// once; otherwise the backoff is waited, and the operation is tried again
/// while attempts are left.
pub fn after_failed_attempt(attempt: usize, max_attempts: usize, retryable: bool) -> (r: RetryStep)
    requires
        attempt < max_attempts,
    ensures
        !retryable ==> r == RetryStep::GiveUp,
        retryable && attempt + 1 < max_attempts ==> r == (RetryStep::WaitAndRetry { retry: (attempt + 1) as usize }),
        retryable && attempt + 1 == max_attempts ==> r == (RetryStep::WaitAndGiveUp { retry: (attempt + 1) as usize }),
{
    if !retryable {
        RetryStep::GiveUp
    } else if attempt + 1 < max_attempts {
        RetryStep::WaitAndRetry { retry: attempt + 1 }
    } else {
        RetryStep::WaitAndGiveUp { retry: attempt + 1 }
    }
}

/// The operation can end in an error.
pub open spec fn may_fail<T, E, F: FnOnce() -> core::result::Result<T, E>>(op: F) -> bool {
    exists|e: E| call_ensures(op, (), Err::<T, E>(e))
}

/// Tries each operation once, in order, until one succeeds: its value is
/// returned; when all fail, the last error is.
pub fn try_with_fallback<T, E, F>(ops: Vec<F>) -> (r: core::result::Result<T, E>) where
    F: FnOnce() -> core::result::Result<T, E>,

    requires
        ops@.len() > 0,
        forall|i: int| 0 <= i < ops@.len() ==> call_requires(#[trigger] ops@[i], ()),
    ensures
        exists|k: int|
            #![trigger ops@[k]]
            0 <= k < ops@.len() && call_ensures(ops@[k], (), r) && (r is Ok || k == ops@.len() - 1)
                && forall|j: int| 0 <= j < k ==> #[trigger] may_fail::<T, E, F>(ops@[j]),
{
    let ghost all = ops@;
    let mut rest = ops;
    let mut i: usize = 0;
    let n = rest.len();
    loop
        invariant
            all == ops@,
            all.len() == n,
            n > 0,
            i < n,
            rest@ == all.skip(i as int),
            forall|k: int| 0 <= k < all.len() ==> call_requires(#[trigger] all[k], ()),
            forall|j: int| 0 <= j < i ==> #[trigger] may_fail::<T, E, F>(all[j]),
        decreases n - i,
    {
        let op = rest.remove(0);
        assert(op == all[i as int]);
        let result = op();
        match result {
            Ok(v) => {
                assert(call_ensures(all[i as int], (), Ok::<T, E>(v)));
                return Ok(v);
            },
            Err(e) => {
                assert(call_ensures(all[i as int], (), Err::<T, E>(e)));
                assert(may_fail::<T, E, F>(all[i as int]));
                if i + 1 == n {
                    return Err(e);
                }
                assert(rest@ =~= all.skip(i + 1));
                i += 1;
            },
        }
    }
}

} // verus!
