//! The decisions of the retry loop that waits for a server, and the backoff
//! that each kind of wait uses by default.
//!
//! The loop itself sleeps and talks to the network, so its caller runs it:
//! it makes an attempt, hands the result to `RetryExecutor::after_attempt`,
//! and does what the returned `Step` says.

use crate::constant::ConstantBackoff;
use crate::retry::{after, limit_caps_the_inner_policy, output, BackoffPolicy, Limit, LimitState};
use std::time::Duration;
use vstd::prelude::*;

verus! {

/// The duration of a whole number of seconds, as `Duration::from_secs` makes it.
pub uninterp spec fn duration_from_secs(secs: u64) -> Duration;

/// `Duration::from_secs` is a function of the number of seconds alone.
pub assume_specification[ Duration::from_secs ](secs: u64) -> (duration: Duration)
    ensures
        duration == duration_from_secs(secs),
;

/// How a wait ended.
#[derive(Debug, PartialEq, Eq)]
pub enum RetryOutcome<T, E> {
    /// An attempt succeeded with this value.
    Succeeded(T),
    /// The policy allowed no further retry; this is the failure of the last
    /// attempt.
    GaveUp(E),
}

impl<T, E> RetryOutcome<T, E> {
    /// What the caller of a wait gets: the value of the attempt that
    /// succeeded, or the failure of the last attempt.
    pub fn into_result(self) -> (result: Result<T, E>)
        ensures
            result == match self {
                RetryOutcome::Succeeded(value) => Ok::<T, E>(value),
                RetryOutcome::GaveUp(error) => Err::<T, E>(error),
            },
    {
        match self {
            RetryOutcome::Succeeded(value) => Ok(value),
            RetryOutcome::GaveUp(error) => Err(error),
        }
    }
}

/// What the loop has to do after an attempt.
#[derive(Debug, PartialEq, Eq)]
pub enum Step<T, E> {
    /// Stop and return the outcome.
    Finish(RetryOutcome<T, E>),
    /// Report `error` and `delay` to the observer, sleep for `delay`, and make
    /// another attempt.
    Retry { error: E, delay: Duration },
}

/// The step that follows an attempt under a policy. A success ends the wait at
/// once. Every failure counts as transient: the policy is asked, and the wait
/// goes on for as long as it names a delay.
pub open spec fn decide<T, E, P: BackoffPolicy>(state: P::State, attempt: Result<T, E>) -> Step<
    T,
    E,
> {
    match attempt {
        Ok(value) => Step::Finish(RetryOutcome::Succeeded(value)),
        Err(error) => match P::upcoming(state) {
            Some(delay) => Step::Retry { error, delay },
            None => Step::Finish(RetryOutcome::GaveUp(error)),
        },
    }
}

/// The state of the policy as an attempt leaves it: asked once after a
/// failure, untouched after a success.
pub open spec fn policy_after<T, E, P: BackoffPolicy>(
    state: P::State,
    attempt: Result<T, E>,
) -> P::State {
    if attempt is Ok {
        state
    } else {
        P::advanced(state)
    }
}

/// Drives one wait: it owns the policy and decides, attempt by attempt,
/// whether the wait ends or goes on.
pub struct RetryExecutor<P: BackoffPolicy> {
    policy: P,
}

impl<P: BackoffPolicy> RetryExecutor<P> {
    /// The state that the policy is in.
    pub closed spec fn policy_state(&self) -> P::State {
        self.policy.state()
    }

    /// An executor for one wait under `policy`, which is reset before use.
    pub fn new(policy: P) -> (executor: Self)
        ensures
            executor.policy_state() == P::rewound(policy.state()),
    {
        let mut policy = policy;
        policy.reset();
        RetryExecutor { policy }
    }

    /// Takes the result of an attempt and says what to do next.
    pub fn after_attempt<T, E>(&mut self, attempt: Result<T, E>) -> (step: Step<T, E>)
        ensures
            step == decide::<T, E, P>(old(self).policy_state(), attempt),
            final(self).policy_state() == policy_after::<T, E, P>(
                old(self).policy_state(),
                attempt,
            ),
    {
        match attempt {
            Ok(value) => Step::Finish(RetryOutcome::Succeeded(value)),
            Err(error) => match self.policy.next_backoff() {
                Some(delay) => Step::Retry { error, delay },
                None => Step::Finish(RetryOutcome::GaveUp(error)),
            },
        }
    }
}

/// A record of a wait: how it ended, if it did, how many attempts were made,
/// what was reported to the observer, and the state the policy was left in.
pub struct Run<T, E, S> {
    pub outcome: Option<RetryOutcome<T, E>>,
    pub attempts: nat,
    pub notified: Seq<(E, Duration)>,
    pub policy: S,
}

/// The wait that an executor whose policy is in `state` goes through when its attempts
/// come out as `results`, in that order: one `after_attempt` for each result
/// until a step says `Finish`. Without a `Finish` among the steps the record
/// has no outcome.
pub open spec fn run<T, E, P: BackoffPolicy>(state: P::State, results: Seq<Result<T, E>>) -> Run<
    T,
    E,
    P::State,
>
    decreases results.len(),
{
    if results.len() == 0 {
        Run { outcome: None, attempts: 0, notified: Seq::empty(), policy: state }
    } else {
        match decide::<T, E, P>(state, results[0]) {
            Step::Finish(outcome) => Run {
                outcome: Some(outcome),
                attempts: 1,
                notified: Seq::empty(),
                policy: policy_after::<T, E, P>(state, results[0]),
            },
            Step::Retry { error, delay } => {
                let rest = run::<T, E, P>(P::advanced(state), results.drop_first());
                Run {
                    outcome: rest.outcome,
                    attempts: rest.attempts + 1,
                    notified: seq![(error, delay)] + rest.notified,
                    policy: rest.policy,
                }
            },
        }
    }
}

/// Where the first attempt succeeds the wait ends with its value after that
/// one attempt: nothing is reported, and the policy is never asked.
pub proof fn success_at_once_ends_the_wait<T, E, P: BackoffPolicy>(
    state: P::State,
    results: Seq<Result<T, E>>,
)
    requires
        results.len() > 0,
        results[0] is Ok,
    ensures
        run::<T, E, P>(state, results).outcome == Some(
            RetryOutcome::<T, E>::Succeeded(results[0]->Ok_0),
        ),
        run::<T, E, P>(state, results).attempts == 1,
        run::<T, E, P>(state, results).notified.len() == 0,
        run::<T, E, P>(state, results).policy == state,
{
}

/// Where every attempt fails and the policy allows exactly `retries` retries,
/// the wait makes `retries + 1` attempts, reports each of the first `retries`
/// failures with the delay that the policy named for it, and gives up with the
/// failure of the last attempt.
pub proof fn failures_exhaust_the_policy<T, E, P: BackoffPolicy>(
    state: P::State,
    results: Seq<Result<T, E>>,
    retries: nat,
)
    requires
        results.len() > retries,
        forall|i: int| 0 <= i <= retries ==> (#[trigger] results[i]) is Err,
        forall|k: nat| k < retries ==> (#[trigger] output::<P>(state, k)) is Some,
        output::<P>(state, retries) is None,
    ensures
        run::<T, E, P>(state, results).outcome == Some(
            RetryOutcome::<T, E>::GaveUp(results[retries as int]->Err_0),
        ),
        run::<T, E, P>(state, results).attempts == retries + 1,
        run::<T, E, P>(state, results).notified.len() == retries,
        forall|i: int|
            0 <= i < retries ==> (#[trigger] run::<T, E, P>(state, results).notified[i]) == (
                results[i]->Err_0,
                output::<P>(state, i as nat)->Some_0,
            ),
        run::<T, E, P>(state, results).policy == after::<P>(state, retries + 1),
    decreases retries,
{
    assert(results[0] is Err);
    if retries == 0 {
        assert(output::<P>(state, 0) is None);
        assert(after::<P>(P::advanced(state), 0) == P::advanced(state));
    } else {
        let next = P::advanced(state);
        let rest = results.drop_first();
        assert(output::<P>(state, 0) is Some);
        assert forall|i: int| 0 <= i <= retries - 1 implies (#[trigger] rest[i]) is Err by {
            assert(results[i + 1] is Err);
        }
        assert forall|k: nat| k < retries - 1 implies (#[trigger] output::<P>(next, k)) is Some by {
            assert(output::<P>(state, k + 1) is Some);
        }
        assert(output::<P>(next, (retries - 1) as nat) == output::<P>(state, retries));
        failures_exhaust_the_policy::<T, E, P>(next, rest, (retries - 1) as nat);
        let whole = run::<T, E, P>(state, results);
        let tail = run::<T, E, P>(next, rest);
        assert(rest[retries - 1] == results[retries as int]);
        assert forall|i: int| 0 <= i < retries implies (#[trigger] whole.notified[i]) == (
            results[i]->Err_0,
            output::<P>(state, i as nat)->Some_0,
        ) by {
            if i > 0 {
                assert(whole.notified[i] == tail.notified[i - 1]);
                assert(rest[i - 1] == results[i]);
                assert(output::<P>(next, (i - 1) as nat) == output::<P>(state, i as nat));
            }
        }
    }
}

/// Under a newly made limit of `n` retries around a policy that names a delay
/// for each of them, a probe that always fails is tried `n + 1` times and
/// reported `n` times before the wait gives up with its last failure.
pub proof fn failures_exhaust_a_limit<T, E, P: BackoffPolicy>(
    state: LimitState<P::State>,
    results: Seq<Result<T, E>>,
)
    requires
        state.remaining == state.limit,
        results.len() > state.limit,
        forall|i: int| 0 <= i <= state.limit ==> (#[trigger] results[i]) is Err,
        forall|k: nat| k < state.limit ==> (#[trigger] output::<P>(state.inner, k)) is Some,
    ensures
        run::<T, E, Limit<P>>(state, results).outcome == Some(
            RetryOutcome::<T, E>::GaveUp(results[state.limit as int]->Err_0),
        ),
        run::<T, E, Limit<P>>(state, results).attempts == state.limit + 1,
        run::<T, E, Limit<P>>(state, results).notified.len() == state.limit,
{
    assert forall|k: nat| k < state.limit implies (#[trigger] output::<Limit<P>>(
        state,
        k,
    )) is Some by {
        limit_caps_the_inner_policy::<P>(state, k);
        assert(output::<P>(state.inner, k) is Some);
    }
    limit_caps_the_inner_policy::<P>(state, state.limit);
    failures_exhaust_the_policy::<T, E, Limit<P>>(state, results, state.limit);
}

/// The fixed delay before the first attempt of a wait: 2 seconds.
pub fn initial_delay() -> (delay: Duration)
    ensures
        delay == duration_from_secs(2),
{
    Duration::from_secs(2)
}

/// A limit of `retries` around a constant interval of 2 seconds.
fn default_backoff(retries: usize) -> (policy: Limit<ConstantBackoff>)
    ensures
        policy.state() == (LimitState {
            limit: retries as nat,
            remaining: retries as nat,
            inner: duration_from_secs(2),
        }),
{
    let interval = Duration::from_secs(2);
    Limit::new(retries, ConstantBackoff::new(interval))
}

/// The backoff of a wait for an HTTP server: up to 7 retries, 2 seconds apart.
pub fn default_http_backoff() -> (policy: Limit<ConstantBackoff>)
    ensures
        policy.state() == (LimitState {
            limit: 7,
            remaining: 7,
            inner: duration_from_secs(2),
        }),
{
    default_backoff(7)
}

/// The backoff of a wait for an HTTPS server: up to 5 retries, 2 seconds apart.
pub fn default_https_backoff() -> (policy: Limit<ConstantBackoff>)
    ensures
        policy.state() == (LimitState {
            limit: 5,
            remaining: 5,
            inner: duration_from_secs(2),
        }),
{
    default_backoff(5)
}

/// The backoff of a wait for a TCP server: up to 4 retries, 2 seconds apart.
pub fn default_tcp_backoff() -> (policy: Limit<ConstantBackoff>)
    ensures
        policy.state() == (LimitState {
            limit: 4,
            remaining: 4,
            inner: duration_from_secs(2),
        }),
{
    default_backoff(4)
}

} // verus!
