//! The cancellation combinator.
//!
//! Every blocking or asynchronous operation of a capability module runs
//! wrapped: the wrapped operation resolves with the operation's own result
//! if it completes first, and resolves to `Interrupted` as soon as the
//! associated token (or an ancestor) is cancelled — without waiting for
//! the underlying operation to stop. This is the only place cancellation
//! semantics live; the modules themselves only wrap their calls.
//!
//! The combinator is modelled by its poll step: the scheduler supplies
//! what the wrapped operation would answer if it were polled, and the step
//! decides what the combinator resolves to and whether the operation was
//! polled at all.

use vstd::prelude::*;

verus! {

/// What a wrapped operation resolved to.
#[derive(Clone, Copy, Debug, PartialEq, Eq, Structural)]
pub enum Outcome<T> {
    /// The operation completed first; its result.
    Completed(T),
    /// The token was cancelled first. Not a failure of the operation
    /// itself: callers can tell "cancelled" from "failed".
    Interrupted,
}

/// One answer of the combinator's poll.
#[derive(Clone, Copy, Debug, PartialEq, Eq, Structural)]
pub enum WrappedPoll<T> {
    /// The combinator resolved.
    Resolved(Outcome<T>),
    /// Neither cancellation nor completion yet.
    Pending,
}

/// The result of one poll step: what the combinator answered, and whether
/// the wrapped operation was polled to obtain it.
pub struct PollStep<T> {
    /// The combinator's answer.
    pub answer: WrappedPoll<T>,
    /// Was the wrapped operation polled during this step?
    pub polled_inner: bool,
}

/// One poll of the combinator. `cancelled` is the state of the associated
/// token at the time of the poll; `inner_ready` is what the wrapped
/// operation would answer if it were polled (`Some` with its result when
/// it is ready, `None` when it would still be pending).
///
/// A poll on a cancelled token resolves to `Interrupted` at once and does
/// not poll the wrapped operation: an already-cancelled token interrupts
/// immediately, whatever the operation would have answered.
pub fn poll_step<T>(cancelled: bool, inner_ready: Option<T>) -> (r: PollStep<T>)
    ensures
        cancelled ==> r.answer == WrappedPoll::<T>::Resolved(Outcome::<T>::Interrupted)
            && !r.polled_inner,
        !cancelled ==> r.polled_inner && match inner_ready {
            Some(v) => r.answer == WrappedPoll::<T>::Resolved(Outcome::<T>::Completed(v)),
            None => r.answer == WrappedPoll::<T>::Pending,
        },
{
    if cancelled {
        PollStep { answer: WrappedPoll::Resolved(Outcome::Interrupted), polled_inner: false }
    } else {
        match inner_ready {
            Some(v) => PollStep {
                answer: WrappedPoll::Resolved(Outcome::Completed(v)),
                polled_inner: true,
            },
            None => PollStep { answer: WrappedPoll::Pending, polled_inner: true },
        }
    }
}

/// The combinator's resolution over a run of polls, each recorded as the
/// token state and the wrapped operation's readiness at that poll: the
/// first poll that observes cancellation or readiness decides; a run
/// that never does leaves the combinator pending.
pub open spec fn first_resolution<T>(observations: Seq<(bool, Option<T>)>, i: int) -> Option<
    Outcome<T>,
>
    decreases observations.len() - i,
{
    if i < 0 || i >= observations.len() {
        None
    } else if observations[i].0 {
        Some(Outcome::Interrupted)
    } else {
        match observations[i].1 {
            Some(v) => Some(Outcome::Completed(v)),
            None => first_resolution(observations, i + 1),
        }
    }
}

/// Drive the combinator through a run of polls until it resolves, or
/// until the observations run out while it is still pending. A run whose
/// very first poll observes a cancelled token resolves to `Interrupted`
/// at once, whatever the operation would have answered.
pub fn run_wrapped<T>(observations: Vec<(bool, Option<T>)>) -> (r: Option<Outcome<T>>)
    ensures
        r == first_resolution(observations@, 0),
        observations@.len() > 0 && observations@[0].0 ==> r == Some(Outcome::<T>::Interrupted),
{
    let ghost all = observations@;
    let mut remaining = observations;
    let total = remaining.len();
    let mut polls: usize = 0;
    loop
        invariant
            all == observations@,
            all.len() == total,
            polls <= all.len(),
            remaining@ =~= all.skip(polls as int),
            first_resolution(all, 0) == first_resolution(all, polls as int),
        decreases all.len() - polls,
    {
        if remaining.len() == 0 {
            assert(first_resolution(all, polls as int) is None);
            return None;
        }
        let (cancelled, inner_ready) = remaining.remove(0);
        assert(all[polls as int] == (cancelled, inner_ready));
        let step = poll_step(cancelled, inner_ready);
        match step.answer {
            WrappedPoll::Resolved(outcome) => {
                return Some(outcome);
            },
            WrappedPoll::Pending => {},
        }
        proof {
            assert(remaining@ =~= all.skip(polls + 1));
        }
        polls += 1;
    }
}

} // verus!
