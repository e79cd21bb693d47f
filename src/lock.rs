//! Why a lock acquisition failed, and the wider vocabulary of retryable failures.
use vstd::prelude::*;

verus! {

/// Why a mutual-exclusion or admission-controlled acquisition failed.
#[derive(Clone, Copy, Debug, PartialEq, Eq, Structural)]
pub enum LockError {
    /// A previous holder stopped while holding the lock; the lock is unusable.
    Poisoned,
    /// The admission limit was saturated; a later attempt may succeed.
    RequestLimitReached,
}

/// A failure after which the caller may retry the whole operation.
#[derive(Clone, Copy, Debug, PartialEq, Eq, Structural)]
pub enum RetryError {
    /// A previous holder stopped while holding the lock; the lock is unusable.
    Poisoned,
    /// The admission limit was saturated; a later attempt may succeed.
    RequestLimitReached,
    /// A transient conflict was detected; the operation may be issued again.
    Retry,
}

/// The short description of a lock failure.
pub open spec fn lock_description(e: LockError) -> Seq<char> {
    match e {
        LockError::Poisoned => "Poisoned"@,
        LockError::RequestLimitReached => "Request limit reached"@,
    }
}

/// The name under which a lock failure is displayed.
pub open spec fn lock_name(e: LockError) -> Seq<char> {
    match e {
        LockError::Poisoned => "Poisoned"@,
        LockError::RequestLimitReached => "RequestLimitReached"@,
    }
}

impl LockError {
    /// A short human-readable description of the failure.
    pub fn description(&self) -> (r: &'static str)
        ensures
            r@ == lock_description(*self),
    {
        match self {
            LockError::Poisoned => "Poisoned",
            LockError::RequestLimitReached => "Request limit reached",
        }
    }

    /// The displayed form of the failure: the variant's name.
    pub fn to_string(&self) -> (r: String)
        ensures
            r@ == lock_name(*self),
    {
        match self {
            LockError::Poisoned => "Poisoned".to_owned(),
            LockError::RequestLimitReached => "RequestLimitReached".to_owned(),
        }
    }
}

/// The short description of a retry failure.
pub open spec fn retry_description(e: RetryError) -> Seq<char> {
    match e {
        RetryError::Poisoned => "Poisoned"@,
        RetryError::RequestLimitReached => "Request limit reached"@,
        RetryError::Retry => "Retry request"@,
    }
}

/// The name under which a retry failure is displayed.
pub open spec fn retry_name(e: RetryError) -> Seq<char> {
    match e {
        RetryError::Poisoned => "Poisoned"@,
        RetryError::RequestLimitReached => "RequestLimitReached"@,
        RetryError::Retry => "Retry"@,
    }
}

/// The retry failure that a lock failure widens to: the same variant.
pub open spec fn lock_to_retry(e: LockError) -> RetryError {
    match e {
        LockError::Poisoned => RetryError::Poisoned,
        LockError::RequestLimitReached => RetryError::RequestLimitReached,
    }
}

impl RetryError {
    /// A short human-readable description of the failure.
    pub fn description(&self) -> (r: &'static str)
        ensures
            r@ == retry_description(*self),
    {
        match self {
            RetryError::Poisoned => "Poisoned",
            RetryError::RequestLimitReached => "Request limit reached",
            RetryError::Retry => "Retry request",
        }
    }

    /// The displayed form of the failure: the variant's name.
    pub fn to_string(&self) -> (r: String)
        ensures
            r@ == retry_name(*self),
    {
        match self {
            RetryError::Poisoned => "Poisoned".to_owned(),
            RetryError::RequestLimitReached => "RequestLimitReached".to_owned(),
            RetryError::Retry => "Retry".to_owned(),
        }
    }
}

impl From<LockError> for RetryError {
    fn from(e: LockError) -> (r: RetryError) {
        match e {
            LockError::Poisoned => RetryError::Poisoned,
            LockError::RequestLimitReached => RetryError::RequestLimitReached,
        }
    }
}

impl vstd::std_specs::convert::FromSpecImpl<LockError> for RetryError {
    open spec fn obeys_from_spec() -> bool {
        true
    }

    open spec fn from_spec(e: LockError) -> RetryError {
        lock_to_retry(e)
    }
}

/// Widening a lock failure keeps its variant, its description and its
/// displayed name, and two different lock failures stay different.
pub proof fn lemma_widening_preserves_variant(a: LockError, b: LockError)
    ensures
        a is Poisoned <==> lock_to_retry(a) is Poisoned,
        a is RequestLimitReached <==> lock_to_retry(a) is RequestLimitReached,
        retry_description(lock_to_retry(a)) == lock_description(a),
        retry_name(lock_to_retry(a)) == lock_name(a),
        lock_to_retry(a) == lock_to_retry(b) ==> a == b,
{
}

/// No lock failure widens to `Retry`: that variant is only ever built directly.
pub proof fn lemma_widening_never_yields_retry(e: LockError)
    ensures
        lock_to_retry(e) !is Retry,
{
}

} // verus!
