//! The per-thread capture slot and the discipline by which supervised calls
//! install and remove it.
//!
//! A thread owns one [`Context`]. A supervised call installs a fresh
//! [`Scope`] in it for its own extent and puts back what it found there when
//! it leaves, so nested calls own the slot last in, first out.

use vstd::prelude::*;

use crate::unwind::Captured;

verus! {

/// What a slot holds: nothing yet, or the record of the first panic that was
/// signalled while it was installed.
pub type SlotView = Option<Captured>;

/// What a thread's context holds: no slot (the thread is not supervised), or
/// the slot of the innermost supervised call.
pub type ContextView = Option<Option<Captured>>;

/// A slot after `record` was offered to it: the first record stays.
pub open spec fn put(slot: SlotView, record: Captured) -> SlotView {
    if slot is None {
        Some(record)
    } else {
        slot
    }
}

/// A context after `record` was offered to it: it goes to the installed slot,
/// and nowhere when none is installed.
pub open spec fn deliver(ctx: ContextView, record: Captured) -> ContextView {
    match ctx {
        Some(slot) => Some(put(slot, record)),
        None => None,
    }
}

/// The record that a supervised call finds when it leaves a context.
pub open spec fn landed(ctx: ContextView) -> Option<Captured> {
    match ctx {
        Some(slot) => slot,
        None => None,
    }
}

/// A context right after a supervised call entered it: a fresh, empty slot.
pub open spec fn entered() -> ContextView {
    Some(None)
}

/// Entering a supervised call on `ctx`: the context as the call runs, and
/// what its guard keeps, which is the context as the call found it.
pub open spec fn enter(ctx: ContextView) -> (ContextView, ContextView) {
    (entered(), ctx)
}

/// Leaving a supervised call whose guard keeps `guard`: the context as the
/// call leaves it, and the record that the call takes with it.
pub open spec fn leave(ctx: ContextView, guard: ContextView) -> (ContextView, Option<Captured>) {
    (guard, landed(ctx))
}

/// The view of a slot that may or may not be there.
pub open spec fn slot_view(slot: Option<Scope>) -> ContextView {
    match slot {
        Some(scope) => Some(scope@),
        None => None,
    }
}

/// The error of reaching for the installed slot when none is installed.
#[derive(Debug)]
pub struct AccessError;

/// A single slot for at most one captured record, owned by one supervised
/// call for its extent.
#[derive(Debug)]
pub struct Scope {
    captured: Option<Captured>,
}

impl View for Scope {
    type V = Option<Captured>;

    closed spec fn view(&self) -> Option<Captured> {
        self.captured
    }
}

impl Scope {
    /// A fresh, empty slot.
    pub fn new() -> (scope: Scope)
        ensures
            scope@ is None,
    {
        Scope { captured: None }
    }

    /// Offers `record` to the slot. The slot keeps it only if it was empty;
    /// the result says whether it did.
    pub fn put(&mut self, record: Captured) -> (kept: bool)
        ensures
            kept == (old(self)@ is None),
            final(self)@ == put(old(self)@, record),
    {
        if self.captured.is_none() {
            self.captured = Some(record);
            true
        } else {
            false
        }
    }

    /// Discards the slot and hands out what landed in it.
    pub fn into_captured(self) -> (captured: Option<Captured>)
        ensures
            captured == self@,
    {
        self.captured
    }
}

/// The current-slot cell of one thread.
#[derive(Debug)]
pub struct Context {
    current: Option<Scope>,
}

impl View for Context {
    type V = ContextView;

    open spec fn view(&self) -> ContextView {
        slot_view(self.slot())
    }
}

/// What a supervised call holds while its own slot is installed: the slot
/// that it found, to be put back when it leaves.
#[derive(Debug)]
#[must_use]
pub struct Guard {
    previous: Option<Scope>,
}

impl View for Guard {
    type V = ContextView;

    closed spec fn view(&self) -> ContextView {
        slot_view(self.previous)
    }
}

impl Context {
    /// The installed slot itself.
    pub closed spec fn slot(self) -> Option<Scope> {
        self.current
    }

    /// The context of a thread on which nothing is supervised.
    pub fn new() -> (ctx: Context)
        ensures
            ctx.slot() is None,
    {
        Context { current: None }
    }

    /// Whether a slot is installed, without touching what it holds.
    pub fn is_set(&self) -> (set: bool)
        ensures
            set == (self@ is Some),
    {
        self.current.is_some()
    }

    /// Makes `slot` the current slot and returns the one that was current.
    pub fn install(&mut self, slot: Scope) -> (previous: Option<Scope>)
        ensures
            final(self).slot() == Some(slot),
            previous == old(self).slot(),
    {
        let previous = self.current.take();
        self.current = Some(slot);
        previous
    }

    /// Writes `previous` back as the current slot and returns the slot that
    /// it replaces.
    pub fn restore(&mut self, previous: Option<Scope>) -> (removed: Option<Scope>)
        ensures
            final(self).slot() == previous,
            removed == old(self).slot(),
    {
        let removed = self.current.take();
        self.current = previous;
        removed
    }

    /// Takes the current slot out of the context, runs `f` on it and puts
    /// back the slot that `f` returns. Without a current slot `f` is not run
    /// and the context stays as it is.
    ///
    /// While `f` runs the context holds no slot. It gets one back when `f`
    /// returns; a closure that panics takes the slot with it.
    pub fn try_with<F, R>(&mut self, f: F) -> (res: Result<R, AccessError>) where
        F: FnOnce(Scope) -> (Scope, R),

        requires
            old(self).slot() is Some ==> f.requires((old(self).slot()->0,)),
        ensures
            res is Ok <==> old(self).slot() is Some,
            old(self).slot() is None ==> final(self).slot() is None,
            old(self).slot() is Some ==> final(self).slot() is Some && f.ensures(
                (old(self).slot()->0,),
                (final(self).slot()->0, res->Ok_0),
            ),
    {
        match self.current.take() {
            Some(scope) => {
                let (scope, r) = f(scope);
                self.current = Some(scope);
                Ok(r)
            },
            None => Err(AccessError),
        }
    }

    /// Offers `record` to the current slot. The result says whether a slot
    /// was installed, not whether the slot kept the record: a slot that
    /// already holds one keeps the first.
    pub fn deliver(&mut self, record: Captured) -> (supervised: bool)
        ensures
            supervised == (old(self)@ is Some),
            final(self)@ == deliver(old(self)@, record),
    {
        let offer = |scope: Scope| -> (out: (Scope, bool))
            ensures
                out.0@ == put(scope@, record),
            {
                let mut scope = scope;
                let kept = scope.put(record);
                (scope, kept)
            };
        let res = self.try_with(offer);
        res.is_ok()
    }

    /// Enters a supervised call: installs a fresh, empty slot and returns the
    /// guard that holds the slot found there.
    pub fn scope(&mut self) -> (guard: Guard)
        ensures
            (final(self)@, guard@) == enter(old(self)@),
    {
        let previous = self.install(Scope::new());
        Guard { previous }
    }
}

impl Guard {
    /// Leaves a supervised call: puts the guarded slot back into `ctx` and
    /// returns the record that landed in the slot it replaces.
    pub fn release(self, ctx: &mut Context) -> (captured: Option<Captured>)
        ensures
            (final(ctx)@, captured) == leave(old(ctx)@, self@),
    {
        match ctx.restore(self.previous) {
            Some(scope) => scope.into_captured(),
            None => None,
        }
    }
}

/// A slot is written at most once: the record that lands first stays, and
/// every later one is turned away.
pub proof fn lemma_first_record_stays(slot: SlotView, first: Captured, second: Captured)
    ensures
        put(put(slot, first), second) == put(slot, first),
        put(slot, first) is Some,
        slot is Some ==> put(slot, first) == slot,
{
}

/// A record that is offered while no slot is installed goes nowhere: the
/// context stays without a slot and holds nothing to take away.
pub proof fn lemma_unsupervised_record_is_lost(record: Captured)
    ensures
        deliver(None, record) == None::<Option<Captured>>,
        landed(deliver(None, record)) is None,
{
}

/// A supervised call that the hook never reaches leaves with no record,
/// whatever the context held when the call entered.
pub proof fn lemma_no_record_without_hook(before: ContextView)
    ensures
        leave(enter(before).0, enter(before).1) == (before, None::<Captured>),
{
}

/// A supervised call takes away the record that was offered while its slot
/// was installed, and puts back the context exactly as it found it. So a
/// panic inside a nested call lands in the nested call's slot only: the slot
/// of the call around it, which is part of `outer`, is the same before and
/// after.
pub proof fn lemma_record_lands_in_innermost_slot(outer: ContextView, record: Captured)
    ensures
        leave(deliver(enter(outer).0, record), enter(outer).1) == (outer, Some(record)),
{
}

/// Of several records offered during one supervised call, the call takes
/// away the first.
pub proof fn lemma_call_keeps_first_record(outer: ContextView, first: Captured, second: Captured)
    ensures
        leave(deliver(deliver(enter(outer).0, first), second), enter(outer).1) == (
            outer,
            Some(first),
        ),
{
}

/// Two supervised calls, one inside the other, each with a panic of its
/// own: the inner call takes away the inner record and puts the outer slot
/// back, still empty; the outer call then takes away the outer record and
/// puts back what it found.
pub proof fn lemma_nested_calls_keep_their_own_records(
    before: ContextView,
    in_outer: Captured,
    in_inner: Captured,
)
    ensures
        ({
            let (outer_ctx, outer_guard) = enter(before);
            let (inner_ctx, inner_guard) = enter(outer_ctx);
            let (after_inner, inner_record) = leave(deliver(inner_ctx, in_inner), inner_guard);
            let (after_outer, outer_record) = leave(deliver(after_inner, in_outer), outer_guard);
            &&& inner_record == Some(in_inner)
            &&& after_inner == outer_ctx
            &&& outer_record == Some(in_outer)
            &&& after_outer == before
        }),
{
}

/// Threads do not share a slot. `threads` holds the context of each thread
/// of a process; an operation on one thread replaces that thread's entry and
/// no other. Two supervised calls on two threads `a` and `b`, their steps
/// interleaved, then each take away the record that was offered on their own
/// thread, and leave every context as it was.
pub proof fn lemma_threads_keep_their_own_records(
    threads: Map<int, ContextView>,
    a: int,
    b: int,
    on_a: Captured,
    on_b: Captured,
)
    requires
        a != b,
        threads.dom().contains(a),
        threads.dom().contains(b),
    ensures
        ({
            let a_entered = threads.insert(a, enter(threads[a]).0);
            let b_entered = a_entered.insert(b, enter(a_entered[b]).0);
            let a_raised = b_entered.insert(a, deliver(b_entered[a], on_a));
            let b_raised = a_raised.insert(b, deliver(a_raised[b], on_b));
            let (a_ctx, a_record) = leave(b_raised[a], enter(threads[a]).1);
            let a_left = b_raised.insert(a, a_ctx);
            let (b_ctx, b_record) = leave(a_left[b], enter(a_entered[b]).1);
            let b_left = a_left.insert(b, b_ctx);
            &&& a_record == Some(on_a)
            &&& b_record == Some(on_b)
            &&& b_left == threads
        }),
{
    let a_entered = threads.insert(a, enter(threads[a]).0);
    let b_entered = a_entered.insert(b, enter(a_entered[b]).0);
    let a_raised = b_entered.insert(a, deliver(b_entered[a], on_a));
    let b_raised = a_raised.insert(b, deliver(a_raised[b], on_b));
    let a_left = b_raised.insert(a, threads[a]);
    let b_left = a_left.insert(b, threads[b]);
    assert(b_left =~= threads);
}

} // verus!
