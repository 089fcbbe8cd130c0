//! The constant-interval policy of the `backoff` crate as a `BackoffPolicy`.

use crate::retry::BackoffPolicy;
use backoff::backoff::Backoff;
use backoff::backoff::Constant;
use std::time::Duration;
use vstd::prelude::*;

verus! {

#[verifier::external_type_specification]
#[verifier::external_body]
pub struct ExConstant(Constant);

/// The interval that a `Constant` of the `backoff` crate was made with.
pub uninterp spec fn constant_interval(policy: Constant) -> Duration;

/// `Constant::new` stores the interval it is given.
pub assume_specification[ Constant::new ](interval: Duration) -> (policy: Constant)
    ensures
        constant_interval(policy) == interval,
;

/// `Constant::next_backoff` hands out the stored interval and keeps it.
#[verifier::external_body]
fn constant_next(policy: &mut Constant) -> (next: Option<Duration>)
    ensures
        next == Some(constant_interval(*old(policy))),
        constant_interval(*final(policy)) == constant_interval(*old(policy)),
{
    policy.next_backoff()
}

/// `Constant::reset` is the `Backoff` trait's default, which does nothing, so
/// the interval stays.
#[verifier::external_body]
fn constant_reset(policy: &mut Constant)
    ensures
        constant_interval(*final(policy)) == constant_interval(*old(policy)),
{
    policy.reset()
}

/// A policy that always asks for the same wait and never gives up.
pub struct ConstantBackoff {
    inner: Constant,
}

impl ConstantBackoff {
    /// A policy that waits `interval` before every retry.
    pub fn new(interval: Duration) -> (policy: Self)
        ensures
            policy.state() == interval,
    {
        ConstantBackoff { inner: Constant::new(interval) }
    }
}

impl BackoffPolicy for ConstantBackoff {
    /// The state of a constant policy is its interval.
    type State = Duration;

    closed spec fn state(&self) -> Duration {
        constant_interval(self.inner)
    }

    open spec fn upcoming(state: Duration) -> Option<Duration> {
        Some(state)
    }

    open spec fn advanced(state: Duration) -> Duration {
        state
    }

    open spec fn rewound(state: Duration) -> Duration {
        state
    }

    proof fn rewinding_forgets(state: Duration) {
    }

    fn next_backoff(&mut self) -> (next: Option<Duration>) {
        constant_next(&mut self.inner)
    }

    fn reset(&mut self) {
        constant_reset(&mut self.inner)
    }
}

} // verus!
