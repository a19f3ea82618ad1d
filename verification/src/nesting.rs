//! Supervised calls nested to any depth.
//!
//! A thread's run is told as a sequence of events: a supervised call enters,
//! the hook offers a record, the innermost supervised call leaves. The laws
//! of this module follow a thread's context, and the guards that the calls
//! in progress hold, through such a run.

use vstd::prelude::*;

use crate::context::{deliver, enter, entered, landed, leave, ContextView};
use crate::unwind::Captured;

verus! {

/// What can happen to the slot of a thread.
pub enum Event {
    /// A supervised call enters.
    Enter,
    /// The hook is told of a panic and offers its record.
    Offer(Captured),
    /// The innermost supervised call leaves.
    Leave,
}

/// A thread in the middle of a run: its context, and what the guards of the
/// supervised calls in progress keep, outermost first.
pub struct Thread {
    pub ctx: ContextView,
    pub guards: Seq<ContextView>,
}

/// The thread after one event. Leaving while no call is in progress changes
/// nothing.
pub open spec fn step(thread: Thread, event: Event) -> Thread {
    match event {
        Event::Enter => Thread {
            ctx: enter(thread.ctx).0,
            guards: thread.guards.push(enter(thread.ctx).1),
        },
        Event::Offer(record) => Thread { ctx: deliver(thread.ctx, record), guards: thread.guards },
        Event::Leave => if thread.guards.len() > 0 {
            Thread {
                ctx: leave(thread.ctx, thread.guards.last()).0,
                guards: thread.guards.drop_last(),
            }
        } else {
            thread
        },
    }
}

/// The thread after a sequence of events.
pub open spec fn run(thread: Thread, events: Seq<Event>) -> Thread
    decreases events.len(),
{
    if events.len() == 0 {
        thread
    } else {
        run(step(thread, events.first()), events.drop_first())
    }
}

/// Whether `events` is well nested over `open` calls in progress: every
/// leave has a call to leave, one that `events` entered or one of the `open`
/// innermost, and at the end these are all left.
pub open spec fn nested(events: Seq<Event>, open: nat) -> bool
    decreases events.len(),
{
    if events.len() == 0 {
        open == 0
    } else {
        match events.first() {
            Event::Enter => nested(events.drop_first(), open + 1),
            Event::Offer(_) => nested(events.drop_first(), open),
            Event::Leave => open > 0 && nested(events.drop_first(), (open - 1) as nat),
        }
    }
}

/// The records that `events` offers while none of the `open` innermost calls,
/// and no call that `events` entered, is in progress.
pub open spec fn own_offers(events: Seq<Event>, open: nat) -> Seq<Captured>
    decreases events.len(),
{
    if events.len() == 0 {
        Seq::empty()
    } else {
        match events.first() {
            Event::Enter => own_offers(events.drop_first(), open + 1),
            Event::Offer(record) => if open == 0 {
                seq![record] + own_offers(events.drop_first(), open)
            } else {
                own_offers(events.drop_first(), open)
            },
            Event::Leave => if open > 0 {
                own_offers(events.drop_first(), (open - 1) as nat)
            } else {
                Seq::empty()
            },
        }
    }
}

/// A context after each of `records` was offered to it in turn.
pub open spec fn deliver_all(ctx: ContextView, records: Seq<Captured>) -> ContextView
    decreases records.len(),
{
    if records.len() == 0 {
        ctx
    } else {
        deliver_all(deliver(ctx, records.first()), records.drop_first())
    }
}

/// Of records offered in turn to a slot that holds one already, none lands.
proof fn lemma_full_slot_stays(ctx: ContextView, records: Seq<Captured>)
    requires
        landed(ctx) is Some,
    ensures
        deliver_all(ctx, records) == ctx,
    decreases records.len(),
{
    if records.len() > 0 {
        lemma_full_slot_stays(deliver(ctx, records.first()), records.drop_first());
    }
}

/// Of records offered in turn to a fresh slot, the first lands.
pub proof fn lemma_first_offer_lands(records: Seq<Captured>)
    ensures
        landed(deliver_all(entered(), records)) == if records.len() == 0 {
            None
        } else {
            Some(records.first())
        },
{
    if records.len() > 0 {
        lemma_full_slot_stays(deliver(entered(), records.first()), records.drop_first());
    }
}

/// A well-nested run touches nothing below the calls that it leaves. With
/// `open` calls in progress that the run is to leave, it ends with the guards
/// of all calls around them as they were, and with the context as the
/// outermost of the `open` calls found it (or, if `open` is zero, as the run
/// itself found it), but for the records that were offered on that level.
pub proof fn lemma_run_keeps_what_is_below(thread: Thread, events: Seq<Event>, open: nat)
    requires
        nested(events, open),
        open <= thread.guards.len(),
    ensures
        run(thread, events).guards == thread.guards.take(thread.guards.len() - open),
        run(thread, events).ctx == deliver_all(
            if open == 0 {
                thread.ctx
            } else {
                thread.guards[thread.guards.len() - open]
            },
            own_offers(events, open),
        ),
    decreases events.len(),
{
    let kept = thread.guards.take(thread.guards.len() - open);
    if events.len() == 0 {
        assert(kept =~= thread.guards);
    } else {
        let next = step(thread, events.first());
        let rest = events.drop_first();
        match events.first() {
            Event::Enter => {
                lemma_run_keeps_what_is_below(next, rest, open + 1);
                assert(next.guards.take(next.guards.len() - (open + 1)) =~= kept);
            },
            Event::Offer(record) => {
                lemma_run_keeps_what_is_below(next, rest, open);
                if open == 0 {
                    let offers = own_offers(events, open);
                    assert(offers.first() == record);
                    assert(offers.drop_first() =~= own_offers(rest, open));
                }
            },
            Event::Leave => {
                lemma_run_keeps_what_is_below(next, rest, (open - 1) as nat);
                assert(next.guards.take(next.guards.len() - (open - 1)) =~= kept);
            },
        }
    }
}

/// Supervised calls own the slot last in, first out, at every depth.
///
/// Take a supervised call and everything that happens inside it: calls that
/// enter and leave within it, nested as deep as they like, and panics of
/// which the hook is told at any point. When the call leaves, the thread is
/// exactly as the call found it, its context and every guard of the calls
/// around it. And the call takes away the first record that was offered
/// while its own slot was the current one: what was offered inside a nested
/// call went to that call.
pub proof fn lemma_call_leaves_thread_as_found(thread: Thread, inside: Seq<Event>)
    requires
        nested(inside, 0),
    ensures
        ({
            let during = run(step(thread, Event::Enter), inside);
            &&& during.guards == thread.guards.push(thread.ctx)
            &&& step(during, Event::Leave) == thread
            &&& leave(during.ctx, during.guards.last()).1 == if own_offers(inside, 0).len() == 0 {
                None
            } else {
                Some(own_offers(inside, 0).first())
            }
        }),
{
    let entered = step(thread, Event::Enter);
    lemma_run_keeps_what_is_below(entered, inside, 0);
    lemma_first_offer_lands(own_offers(inside, 0));
    let during = run(entered, inside);
    assert(during.guards =~= thread.guards.push(thread.ctx));
    assert(during.guards.drop_last() =~= thread.guards);
}

} // verus!
