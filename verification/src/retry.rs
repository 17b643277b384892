//! The retry policy: a fixed spacing, a bounded attempt count, and an
//! explicit allow-list of transient native status codes.
//!
//! The asynchronous loop that actually re-runs an operation lives outside the
//! library; everything it decides — whether an error is transient, whether
//! another attempt is allowed, how long to wait — is decided here, one
//! attempt at a time, by [`RetryState::step`].

use vstd::prelude::*;

use crate::error::{Error, FabricErrorCode, spec_code_from_u32};

verus! {

/// Most attempts one logical operation makes, the first try included.
pub const MAX_ATTEMPTS: u32 = 10;

/// Constant spacing between consecutive attempts, in milliseconds.
pub const RETRY_INTERVAL_MS: u64 = 200;

/// The fixed allow-list of transient conditions: an error whose code is in
/// this list may be retried, every other error ends the loop at once.
pub open spec fn spec_is_retryable_code(c: FabricErrorCode) -> bool {
    ||| c == FabricErrorCode::FabricHealthEntityNotFound
    ||| c == FabricErrorCode::PLBNotReady
    ||| c == FabricErrorCode::InvalidReplicaStateForReplicaOperation
    ||| c == FabricErrorCode::ObjectClosed
    ||| c == FabricErrorCode::ServiceNotFound
    ||| c == FabricErrorCode::AlreadyAuxiliaryReplica
    ||| c == FabricErrorCode::AlreadyInstance
    ||| c == FabricErrorCode::AlreadySecondaryReplica
    ||| c == FabricErrorCode::AlreadyPrimaryReplica
    ||| c == FabricErrorCode::FabricVersionAlreadyExists
    ||| c == FabricErrorCode::FabricUpgradeInProgress
    ||| c == FabricErrorCode::FabricAlreadyInTargetVersion
    ||| c == FabricErrorCode::StopInProgress
}

/// Whether a symbolic code names a transient condition.
pub fn is_retryable_code(c: FabricErrorCode) -> (r: bool)
    ensures
        r == spec_is_retryable_code(c),
{
    match c {
        FabricErrorCode::FabricHealthEntityNotFound => true,
        FabricErrorCode::PLBNotReady => true,
        FabricErrorCode::InvalidReplicaStateForReplicaOperation => true,
        FabricErrorCode::ObjectClosed => true,
        FabricErrorCode::ServiceNotFound => true,
        FabricErrorCode::AlreadyAuxiliaryReplica => true,
        FabricErrorCode::AlreadyInstance => true,
        FabricErrorCode::AlreadySecondaryReplica => true,
        FabricErrorCode::AlreadyPrimaryReplica => true,
        FabricErrorCode::FabricVersionAlreadyExists => true,
        FabricErrorCode::FabricUpgradeInProgress => true,
        FabricErrorCode::FabricAlreadyInTargetVersion => true,
        FabricErrorCode::StopInProgress => true,
        _ => false,
    }
}

/// An error is transient exactly when it is a native status code whose
/// symbolic name is on the allow-list. Decode failures, abandonment and
/// unknown codes are never transient.
pub open spec fn spec_is_retryable_error(e: Error) -> bool {
    match e {
        Error::Windows(code) => match spec_code_from_u32(code) {
            Option::Some(c) => spec_is_retryable_code(c),
            Option::None => false,
        },
        _ => false,
    }
}

/// Classifies one error for the retry loop.
pub fn is_retryable_error(err: &Error) -> (r: bool)
    ensures
        r == spec_is_retryable_error(*err),
{
    match err {
        Error::Windows(code) => match FabricErrorCode::from_u32(*code) {
            Option::Some(c) => is_retryable_code(c),
            Option::None => false,
        },
        _ => false,
    }
}

/// What the policy tells the loop to do after one attempt.
pub enum RetryDecision<T> {
    /// The loop is over: hand this result to the caller.
    Done(Result<T, Error>),
    /// Run another attempt after waiting `delay_ms` milliseconds. `error`
    /// is the transient error being discarded for control flow; the loop
    /// may log it, nothing else sees it.
    Retry { delay_ms: u64, error: Error },
}

/// The decision after an attempt, as a function of how many attempts have
/// completed (`attempts_done`, the one just run included) and its outcome:
/// success and non-transient errors end the loop; a transient error is
/// retried at the fixed interval while attempts remain.
pub open spec fn spec_retry_decision<T>(attempts_done: nat, outcome: Result<T, Error>) -> RetryDecision<
    T,
> {
    match outcome {
        Result::Ok(v) => RetryDecision::Done(Result::Ok(v)),
        Result::Err(e) => if spec_is_retryable_error(e) && attempts_done < MAX_ATTEMPTS {
            RetryDecision::Retry { delay_ms: RETRY_INTERVAL_MS, error: e }
        } else {
            RetryDecision::Done(Result::Err(e))
        },
    }
}

/// Progress of one logical operation through the retry loop.
pub struct RetryState {
    /// How many attempts have completed so far.
    pub attempts: u32,
}

impl RetryState {
    /// A fresh loop: no attempt has run yet.
    pub fn new() -> (s: RetryState)
        ensures
            s.attempts == 0,
    {
        RetryState { attempts: 0 }
    }

    /// Records the outcome of the attempt that just ran and decides what the
    /// loop does next.
    pub fn step<T>(&mut self, outcome: Result<T, Error>) -> (d: RetryDecision<T>)
        requires
            old(self).attempts < MAX_ATTEMPTS,
        ensures
            final(self).attempts == old(self).attempts + 1,
            d == spec_retry_decision::<T>((old(self).attempts + 1) as nat, outcome),
    {
        self.attempts = self.attempts + 1;
        match outcome {
            Result::Ok(v) => RetryDecision::Done(Result::Ok(v)),
            Result::Err(e) => if is_retryable_error(&e) && self.attempts < MAX_ATTEMPTS {
                RetryDecision::Retry { delay_ms: RETRY_INTERVAL_MS, error: e }
            } else {
                RetryDecision::Done(Result::Err(e))
            },
        }
    }
}

/// How a scripted run of the retry loop ended.
pub enum RetryRun<T> {
    /// The policy stopped after `attempts` attempts with this result.
    Finished { attempts: u32, result: Result<T, Error> },
    /// The script ran out of recorded outcomes while the policy still wanted
    /// another attempt.
    Exhausted { attempts: u32 },
}

/// Driving the policy over a recorded sequence of per-attempt outcomes,
/// starting with `prior` attempts already completed: feed outcomes to
/// [`spec_retry_decision`] until it says the loop is over.
pub open spec fn spec_run_with_retry<T>(prior: nat, outcomes: Seq<Result<T, Error>>) -> RetryRun<T>
    recommends
        prior < MAX_ATTEMPTS,
    decreases outcomes.len(),
{
    if outcomes.len() == 0 {
        RetryRun::Exhausted { attempts: prior as u32 }
    } else {
        match spec_retry_decision::<T>(prior + 1, outcomes[0]) {
            RetryDecision::Done(r) => RetryRun::Finished {
                attempts: (prior + 1) as u32,
                result: r,
            },
            RetryDecision::Retry { .. } => spec_run_with_retry::<T>(
                prior + 1,
                outcomes.drop_first(),
            ),
        }
    }
}

/// Runs the retry policy over the outcomes of consecutive attempts,
/// `outcomes[0]` being the first attempt's result. The asynchronous loop
/// this library is used with makes one native call per attempt and waits
/// out each requested delay; this runner performs the same decisions over
/// outcomes that are already at hand.
#[verifier::loop_isolation(false)]
pub fn run_with_retry<T>(outcomes: Vec<Result<T, Error>>) -> (r: RetryRun<T>)
    ensures
        r == spec_run_with_retry::<T>(0, outcomes@),
{
    let ghost all: Seq<Result<T, Error>> = outcomes@;
    let mut state = RetryState::new();
    let mut rest = outcomes;
    proof {
        assert(rest@ =~= all.skip(0));
    }
    loop
        invariant
            state.attempts < MAX_ATTEMPTS,
            spec_run_with_retry::<T>(0, all) == spec_run_with_retry::<T>(
                state.attempts as nat,
                rest@,
            ),
        decreases rest@.len(),
    {
        if rest.len() == 0 {
            return RetryRun::Exhausted { attempts: state.attempts };
        }
        let ghost before: Seq<Result<T, Error>> = rest@;
        let outcome = rest.remove(0);
        proof {
            assert(rest@ =~= before.drop_first());
        }
        let d = state.step(outcome);
        match d {
            RetryDecision::Done(result) => {
                return RetryRun::Finished { attempts: state.attempts, result };
            },
            RetryDecision::Retry { .. } => {},
        }
    }
}

/// A failing attempt whose error is not on the transient allow-list ends the
/// loop at once: exactly one attempt is made and that same error is returned,
/// whatever the later attempts would have produced.
pub proof fn lemma_non_retryable_stops_immediately<T>(outcomes: Seq<Result<T, Error>>, e: Error)
    requires
        outcomes.len() > 0,
        outcomes[0] == Result::<T, Error>::Err(e),
        !spec_is_retryable_error(e),
    ensures
        spec_run_with_retry::<T>(0, outcomes) == (RetryRun::Finished {
            attempts: 1u32,
            result: Result::<T, Error>::Err(e),
        }),
{
}

/// Transient failures on the first three attempts followed by a success on
/// the fourth: the loop returns the success after exactly four attempts —
/// three retries — and each of the three retries waits the fixed interval.
pub proof fn lemma_transient_then_success<T>(outcomes: Seq<Result<T, Error>>, v: T)
    requires
        outcomes.len() >= 4,
        forall|i: int|
            0 <= i < 3 ==> outcomes[i] is Err && spec_is_retryable_error(
                #[trigger] outcomes[i]->Err_0,
            ),
        outcomes[3] == Result::<T, Error>::Ok(v),
    ensures
        spec_run_with_retry::<T>(0, outcomes) == (RetryRun::Finished {
            attempts: 4u32,
            result: Result::<T, Error>::Ok(v),
        }),
        forall|i: int|
            0 <= i < 3 ==> (#[trigger] spec_retry_decision::<T>(
                (i + 1) as nat,
                outcomes[i],
            ) matches RetryDecision::Retry { delay_ms, .. } && delay_ms == RETRY_INTERVAL_MS),
{
    let o1 = outcomes.drop_first();
    let o2 = o1.drop_first();
    let o3 = o2.drop_first();
    assert(o1[0] == outcomes[1]);
    assert(o2[0] == outcomes[2]);
    assert(o3[0] == outcomes[3]);
    assert(spec_run_with_retry::<T>(0, outcomes) == spec_run_with_retry::<T>(1, o1));
    assert(spec_run_with_retry::<T>(1, o1) == spec_run_with_retry::<T>(2, o2));
    assert(spec_run_with_retry::<T>(2, o2) == spec_run_with_retry::<T>(3, o3));
}

} // verus!
