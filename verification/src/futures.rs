//! Supervision of a computation that runs in steps, each resumed by a
//! scheduler that may pick another thread for the next one.

use vstd::prelude::*;

use futures_core::future::Future;

use crate::context::{deliver, enter, leave, Context, ContextView, Guard};
use crate::unwind::{maybe_unwind, unwound, Captured, Payload, Unwind};

verus! {

/// How one step of a resumable computation ended.
#[derive(Debug)]
pub enum PollOutcome<T> {
    /// The computation is not finished and waits to be resumed.
    Pending,
    /// The computation is finished, with this result.
    Ready(T),
}

/// Whether a step that ended with `outcome` is the last of its computation:
/// every step is, but one that ended pending.
pub open spec fn is_last<T, P>(outcome: Result<PollOutcome<T>, Payload<P>>) -> bool {
    !(outcome matches Ok(PollOutcome::Pending))
}

/// A future for the [`maybe_unwind`] method.
///
/// [`maybe_unwind`]: FutureMaybeUnwindExt::maybe_unwind
#[derive(Debug)]
#[must_use]
pub struct MaybeUnwind<F> {
    inner: F,
    terminated: bool,
}

impl<F> MaybeUnwind<F> {
    /// The computation that is supervised.
    pub closed spec fn inner(self) -> F {
        self.inner
    }

    /// Whether the computation has come to its end, by a result or by a
    /// panic.
    pub closed spec fn terminated(self) -> bool {
        self.terminated
    }

    /// Wraps a computation that has not been resumed yet.
    pub fn new(inner: F) -> (adapter: MaybeUnwind<F>)
        ensures
            adapter.inner() == inner,
            !adapter.terminated(),
    {
        MaybeUnwind { inner, terminated: false }
    }

    /// Whether the computation has come to its end and must not be resumed.
    pub fn is_terminated(&self) -> (yes: bool)
        ensures
            yes == self.terminated(),
    {
        self.terminated
    }

    /// The supervised computation, for the caller to resume.
    pub fn get_mut(&mut self) -> (inner: &mut F)
        ensures
            *inner == old(self).inner(),
            final(self).inner() == *final(inner),
            final(self).terminated() == old(self).terminated(),
    {
        &mut self.inner
    }

    /// Gives the supervised computation back.
    pub fn into_inner(self) -> (inner: F)
        ensures
            inner == self.inner(),
    {
        self.inner
    }

    /// Enters one step on the thread that owns `ctx`. While the computation
    /// has not ended this installs a fresh slot, as [`Context::scope`] does. A
    /// computation that has ended is not resumed: the result is `None` and
    /// `ctx` stays as it is.
    pub fn resume(&self, ctx: &mut Context) -> (guard: Option<Guard>)
        ensures
            guard is Some <==> !self.terminated(),
            self.terminated() ==> final(ctx)@ == old(ctx)@,
            !self.terminated() ==> (final(ctx)@, guard->0@) == enter(old(ctx)@),
    {
        if self.terminated {
            None
        } else {
            Some(ctx.scope())
        }
    }

    /// Leaves the step that `guard` entered and says what the computation
    /// yields for it.
    ///
    /// `outcome` is what the catching primitive made of the step. The slot
    /// found on entry is put back. A step that is pending leaves the
    /// computation resumable; a result ends it; so does a panic, whose payload
    /// comes out at once as the computation's final result, paired with the
    /// record that landed during this step.
    pub fn poll<T, P>(
        &mut self,
        ctx: &mut Context,
        guard: Guard,
        outcome: Result<PollOutcome<T>, Payload<P>>,
    ) -> (step: PollOutcome<Result<T, Unwind<P>>>)
        ensures
            final(ctx)@ == leave(old(ctx)@, guard@).0,
            final(self).inner() == old(self).inner(),
            final(self).terminated() == (old(self).terminated() || is_last(outcome)),
            match outcome {
                Ok(PollOutcome::Pending) => step == PollOutcome::<Result<T, Unwind<P>>>::Pending,
                Ok(PollOutcome::Ready(value)) => step == PollOutcome::Ready(
                    Ok::<T, Unwind<P>>(value),
                ),
                Err(payload) => step matches PollOutcome::Ready(Err(unwind)) && unwind@ == unwound(
                    payload,
                    old(ctx)@,
                ),
            },
    {
        match maybe_unwind(ctx, guard, outcome) {
            Ok(PollOutcome::Pending) => PollOutcome::Pending,
            Ok(PollOutcome::Ready(value)) => {
                self.terminated = true;
                PollOutcome::Ready(Ok(value))
            },
            Err(unwind) => {
                self.terminated = true;
                PollOutcome::Ready(Err(unwind))
            },
        }
    }
}

/// An extension trait for `Future`s that provides an adaptor for capturing
/// the unwinding panic information.
pub trait FutureMaybeUnwindExt: Future + Sized {
    /// Catches unwinding panics while polling the future.
    fn maybe_unwind(self) -> (adapter: MaybeUnwind<Self>)
        ensures
            adapter.inner() == self,
            !adapter.terminated(),
    {
        MaybeUnwind::new(self)
    }
}

impl<F: Future> FutureMaybeUnwindExt for F {

}

/// A scheduler may resume a computation on another thread for each step.
/// A step that ends pending on one thread leaves that thread's context as it
/// found it; when a later step panics on another thread, the caller gets the
/// record that was offered on that thread during that step, and that
/// thread's context comes back as it was too.
pub proof fn lemma_step_record_comes_from_its_own_thread<P>(
    earlier: ContextView,
    later: ContextView,
    payload: Payload<P>,
    record: Captured,
)
    ensures
        leave(enter(earlier).0, enter(earlier).1).0 == earlier,
        unwound(payload, deliver(enter(later).0, record)).payload == payload,
        unwound(payload, deliver(enter(later).0, record)).captured == Some(record),
        leave(deliver(enter(later).0, record), enter(later).1).0 == later,
{
}

} // verus!
