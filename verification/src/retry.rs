//! Backoff policies and the decorator that bounds them.

use std::time::Duration;
use vstd::prelude::*;

verus! {

/// A stateful strategy that hands out the wait before each retry, or gives up.
///
/// A policy is modelled as a deterministic machine over a mathematical state:
/// the state alone decides what the next call returns and which state follows.
pub trait BackoffPolicy: Sized {
    /// The mathematical state of a policy.
    type State;

    /// The state that the policy is in.
    spec fn state(&self) -> Self::State;

    /// What `next_backoff` returns in a state: `Some(d)` to wait `d` and try
    /// again, `None` to give up.
    spec fn upcoming(state: Self::State) -> Option<Duration>;

    /// The state that one call of `next_backoff` leads to.
    spec fn advanced(state: Self::State) -> Self::State;

    /// The state that `reset` leads to: that of a policy newly made with the
    /// same parameters.
    spec fn rewound(state: Self::State) -> Self::State;

    /// Resetting forgets all progress, and resetting twice is resetting once.
    proof fn rewinding_forgets(state: Self::State)
        ensures
            Self::rewound(Self::advanced(state)) == Self::rewound(state),
            Self::rewound(Self::rewound(state)) == Self::rewound(state),
    ;

    /// The wait before the next retry, or `None` when no retry is allowed.
    fn next_backoff(&mut self) -> (next: Option<Duration>)
        ensures
            next == Self::upcoming(old(self).state()),
            final(self).state() == Self::advanced(old(self).state()),
    ;

    /// Puts the policy back into its initial state.
    fn reset(&mut self)
        ensures
            final(self).state() == Self::rewound(old(self).state()),
    ;
}

/// The state after `calls` calls of `next_backoff`.
pub open spec fn after<P: BackoffPolicy>(state: P::State, calls: nat) -> P::State
    decreases calls,
{
    if calls == 0 {
        state
    } else {
        after::<P>(P::advanced(state), (calls - 1) as nat)
    }
}

/// What the call of `next_backoff` that follows `calls` earlier ones returns.
pub open spec fn output<P: BackoffPolicy>(state: P::State, calls: nat) -> Option<Duration> {
    P::upcoming(after::<P>(state, calls))
}

/// A state is fresh when a reset would change nothing: it is the state of a
/// newly made policy.
pub open spec fn is_fresh<P: BackoffPolicy>(state: P::State) -> bool {
    P::rewound(state) == state
}

/// However far a policy has come, a reset takes it where a reset at the start
/// would have taken it.
pub proof fn rewinding_after_any_calls<P: BackoffPolicy>(state: P::State, calls: nat)
    ensures
        P::rewound(after::<P>(state, calls)) == P::rewound(state),
    decreases calls,
{
    if calls > 0 {
        rewinding_after_any_calls::<P>(P::advanced(state), (calls - 1) as nat);
        P::rewinding_forgets(state);
    }
}

/// After any number of calls, a reset makes a policy that started fresh answer
/// again exactly as it did from the start: the same waits in the same order.
pub proof fn reset_repeats_the_sequence<P: BackoffPolicy>(state: P::State, calls: nat, k: nat)
    requires
        is_fresh::<P>(state),
    ensures
        P::rewound(after::<P>(state, calls)) == state,
        output::<P>(P::rewound(after::<P>(state, calls)), k) == output::<P>(state, k),
{
    rewinding_after_any_calls::<P>(state, calls);
}

/// The mathematical state of a `Limit`.
pub struct LimitState<S> {
    /// The number of retries that the limit was configured with.
    pub limit: nat,
    /// The number of retries that may still be allowed before a reset.
    pub remaining: nat,
    /// The state of the wrapped policy.
    pub inner: S,
}

impl<S> LimitState<S> {
    /// What remains never exceeds what was configured.
    pub open spec fn inv(self) -> bool {
        self.remaining <= self.limit
    }
}

/// Wraps another policy and limits the number of retries it may allow.
///
/// Every call of `next_backoff` that finds something remaining uses one up and
/// asks the wrapped policy; once nothing remains the answer is `None` and the
/// wrapped policy is left alone, until `reset`.
pub struct Limit<P: BackoffPolicy> {
    configured_remaining: usize,
    remaining: usize,
    policy: P,
}

impl<P: BackoffPolicy> Limit<P> {
    /// A policy that allows at most `remaining` retries, each with the wait
    /// that `policy` asks for.
    pub fn new(remaining: usize, policy: P) -> (limit: Self)
        ensures
            limit.state() == (LimitState {
                limit: remaining as nat,
                remaining: remaining as nat,
                inner: policy.state(),
            }),
            limit.state().inv(),
    {
        Limit { configured_remaining: remaining, remaining, policy }
    }
}

impl<P: BackoffPolicy> BackoffPolicy for Limit<P> {
    type State = LimitState<P::State>;

    closed spec fn state(&self) -> LimitState<P::State> {
        LimitState {
            limit: self.configured_remaining as nat,
            remaining: self.remaining as nat,
            inner: self.policy.state(),
        }
    }

    open spec fn upcoming(state: LimitState<P::State>) -> Option<Duration> {
        if state.remaining > 0 {
            P::upcoming(state.inner)
        } else {
            None
        }
    }

    open spec fn advanced(state: LimitState<P::State>) -> LimitState<P::State> {
        if state.remaining > 0 {
            LimitState {
                limit: state.limit,
                remaining: (state.remaining - 1) as nat,
                inner: P::advanced(state.inner),
            }
        } else {
            state
        }
    }

    open spec fn rewound(state: LimitState<P::State>) -> LimitState<P::State> {
        LimitState { limit: state.limit, remaining: state.limit, inner: P::rewound(state.inner) }
    }

    proof fn rewinding_forgets(state: LimitState<P::State>) {
        P::rewinding_forgets(state.inner);
    }

    fn next_backoff(&mut self) -> (next: Option<Duration>) {
        if self.remaining > 0 {
            self.remaining = self.remaining - 1;
            self.policy.next_backoff()
        } else {
            None
        }
    }

    fn reset(&mut self) {
        self.policy.reset();
        self.remaining = self.configured_remaining;
    }
}

/// What remains never exceeds what was configured: a new limit starts so,
/// every call of `next_backoff` keeps it so, and every `reset` makes it so.
pub proof fn limit_keeps_its_invariant<P: BackoffPolicy>(state: LimitState<P::State>, calls: nat)
    ensures
        state.inv() ==> <Limit<P> as BackoffPolicy>::advanced(state).inv(),
        state.inv() ==> after::<Limit<P>>(state, calls).inv(),
        <Limit<P> as BackoffPolicy>::rewound(state).inv(),
{
    limit_caps_the_inner_policy::<P>(state, calls);
}

/// Up to its remaining count a limit answers as the wrapped policy does; from
/// there on it answers `None`, whatever the wrapped policy would say, and the
/// wrapped policy is asked no more.
pub proof fn limit_caps_the_inner_policy<P: BackoffPolicy>(state: LimitState<P::State>, calls: nat)
    ensures
        calls < state.remaining ==> output::<Limit<P>>(state, calls) == output::<P>(
            state.inner,
            calls,
        ),
        calls >= state.remaining ==> output::<Limit<P>>(state, calls) is None,
        after::<Limit<P>>(state, calls) == (LimitState {
            limit: state.limit,
            remaining: if calls < state.remaining {
                (state.remaining - calls) as nat
            } else {
                0
            },
            inner: if calls < state.remaining {
                after::<P>(state.inner, calls)
            } else {
                after::<P>(state.inner, state.remaining)
            },
        }),
    decreases calls,
{
    if calls > 0 {
        limit_caps_the_inner_policy::<P>(
            <Limit<P> as BackoffPolicy>::advanced(state),
            (calls - 1) as nat,
        );
    }
}

/// A limit of `n` allows at most `n` retries: among the answers of a newly made
/// limit only the first `n` can be `Some`, so the call after `n` calls returns
/// `None`, even where the wrapped policy would never give up.
pub proof fn limit_bounds_the_retries<P: BackoffPolicy>(state: LimitState<P::State>, calls: nat)
    requires
        state.remaining == state.limit,
    ensures
        output::<Limit<P>>(state, calls) is Some ==> calls < state.limit,
        output::<Limit<P>>(state, state.limit) is None,
{
    limit_caps_the_inner_policy::<P>(state, calls);
    limit_caps_the_inner_policy::<P>(state, state.limit);
}

/// With nothing remaining, and so with a limit of zero, the very next call
/// returns `None`.
pub proof fn zero_limit_gives_up_at_once<P: BackoffPolicy>(state: LimitState<P::State>)
    requires
        state.remaining == 0,
    ensures
        <Limit<P> as BackoffPolicy>::upcoming(state) is None,
        output::<Limit<P>>(state, 0) is None,
{
}

/// After `calls` calls and a reset, a limit that was newly made around a fresh
/// policy hands out the same waits in the same order as it did at first.
pub proof fn reset_repeats_the_limit<P: BackoffPolicy>(
    state: LimitState<P::State>,
    calls: nat,
    k: nat,
)
    requires
        state.remaining == state.limit,
        is_fresh::<P>(state.inner),
    ensures
        <Limit<P> as BackoffPolicy>::rewound(after::<Limit<P>>(state, calls)) == state,
        output::<Limit<P>>(
            <Limit<P> as BackoffPolicy>::rewound(after::<Limit<P>>(state, calls)),
            k,
        ) == output::<Limit<P>>(state, k),
{
    reset_repeats_the_sequence::<Limit<P>>(state, calls, k);
}

} // verus!
