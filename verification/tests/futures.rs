//! Supervised computations that run in steps.
//!
//! A step that ends normally really polls the wrapped future. A step that
//! panics is played out as in the tests of the plain calls: the hook is told
//! while the step's slot is installed, then the payload is handed over.

use std::any::Any;
use std::future::Future;
use std::pin::Pin;
use std::task::{Poll, Waker};

use maybe_unwind::{
    capture_panic_info, Context, FutureMaybeUnwindExt, MaybeUnwind, PanicInfo, Payload,
    PollOutcome, Unwind,
};

type Raw = Box<dyn Any + Send + 'static>;

type Step<T> = PollOutcome<Result<T, Unwind<Raw>>>;

const THIS_FILE: &str = "tests/futures.rs";

/// Runs one step of `adapter` on the thread that owns `ctx`.
fn step<F: Future + Unpin>(adapter: &mut MaybeUnwind<F>, ctx: &mut Context) -> Step<F::Output> {
    let guard = adapter.resume(ctx).expect("resumed after the end");
    let mut cx = std::task::Context::from_waker(Waker::noop());
    let outcome = match Pin::new(adapter.get_mut()).poll(&mut cx) {
        Poll::Ready(value) => PollOutcome::Ready(value),
        Poll::Pending => PollOutcome::Pending,
    };
    adapter.poll(ctx, guard, Ok(outcome))
}

/// Runs one step of `adapter` in which the computation panics with `msg`.
fn step_raising<F: Future + Unpin>(
    adapter: &mut MaybeUnwind<F>,
    ctx: &mut Context,
    msg: &'static str,
    line: u32,
) -> Step<F::Output> {
    let guard = adapter.resume(ctx).expect("resumed after the end");
    let info = PanicInfo {
        location: Some((THIS_FILE, line, 17)),
        message: Some(msg),
    };
    assert!(capture_panic_info(ctx, &info, false));
    adapter.poll(ctx, guard, Err(Payload::Str(msg)))
}

fn ready<T>(step: Step<T>) -> Result<T, Unwind<Raw>> {
    match step {
        PollOutcome::Ready(res) => res,
        PollOutcome::Pending => panic!("the step is pending"),
    }
}

/// A future that is pending `pending` times and then yields `value`.
struct Countdown {
    pending: u32,
    value: &'static str,
}

impl Future for Countdown {
    type Output = &'static str;

    fn poll(mut self: Pin<&mut Self>, _: &mut std::task::Context<'_>) -> Poll<&'static str> {
        if self.pending == 0 {
            Poll::Ready(self.value)
        } else {
            self.pending -= 1;
            Poll::Pending
        }
    }
}

#[test]
fn test_never_unwind() {
    let mut ctx = Context::new();
    let mut adapter = Box::pin(async { "foo" }).maybe_unwind();
    assert!(ready(step(&mut adapter, &mut ctx)).is_ok());
}

#[test]
fn test_has_unwind() {
    let mut ctx = Context::new();
    let mut adapter = Box::pin(async { "foo" }).maybe_unwind();
    let unwind = ready(step_raising(&mut adapter, &mut ctx, "bar", 95)).unwrap_err();
    assert_eq!(unwind.payload_str(), "bar");
    assert!(unwind
        .location()
        .map_or(false, |loc| loc.file().contains(THIS_FILE)));
}

#[test]
fn test_nested1() {
    let mut ctx = Context::new();
    let mut outer = Box::pin(async { "baz" }).maybe_unwind();
    let mut inner = Box::pin(async { "baz" }).maybe_unwind();
    // The outer step runs the inner computation to its end and yields what
    // it got.
    let outer_guard = outer.resume(&mut ctx).unwrap();
    let inner_res = ready(step_raising(&mut inner, &mut ctx, "bar", 115));
    let res: Step<Result<&str, Unwind<Raw>>> =
        outer.poll(&mut ctx, outer_guard, Ok(PollOutcome::Ready(inner_res)));
    let res = ready(res).unwrap();
    let unwind = res.unwrap_err();
    assert_eq!(unwind.payload_str(), "bar");
}

#[test]
fn test_nested2() {
    let mut ctx = Context::new();
    let mut outer = Box::pin(async {}).maybe_unwind();
    let mut inner = Box::pin(async { "baz" }).maybe_unwind();
    let outer_guard = outer.resume(&mut ctx).unwrap();
    let _ = ready(step_raising(&mut inner, &mut ctx, "bar", 136));
    // Then the outer computation panics itself, in the same step.
    let info = PanicInfo {
        location: Some((THIS_FILE, 141, 17)),
        message: Some("foo"),
    };
    assert!(capture_panic_info(&mut ctx, &info, false));
    let res: Step<()> = outer.poll(&mut ctx, outer_guard, Err(Payload::Str("foo")));
    let unwind = ready(res).unwrap_err();
    assert_eq!(unwind.payload_str(), "foo");
}

#[test]
#[should_panic(expected = "explicit panic")]
fn smoke_test() {
    let mut ctx = Context::new();

    let mut adapter = Box::pin(async { "foo" }).maybe_unwind();
    assert!(ready(step(&mut adapter, &mut ctx)).is_ok());

    let mut adapter = Box::pin(async { "foo" }).maybe_unwind();
    let unwind = ready(step_raising(&mut adapter, &mut ctx, "bar", 22)).unwrap_err();

    let captured = unwind.message().expect("empty capture");
    assert!(captured == "bar");

    panic!("explicit panic");
}

#[test]
fn pending_steps_keep_the_computation_resumable() {
    let mut ctx = Context::new();
    let mut adapter = Countdown { pending: 2, value: "done" }.maybe_unwind();
    assert!(!adapter.is_terminated());
    assert!(matches!(step(&mut adapter, &mut ctx), PollOutcome::Pending));
    assert!(!adapter.is_terminated());
    assert!(!ctx.is_set());
    assert!(matches!(step(&mut adapter, &mut ctx), PollOutcome::Pending));
    assert!(!adapter.is_terminated());
    assert_eq!(ready(step(&mut adapter, &mut ctx)).unwrap(), "done");
    assert!(adapter.is_terminated());
    assert!(!ctx.is_set());
}

#[test]
fn result_ends_the_computation() {
    let mut ctx = Context::new();
    let mut adapter = std::future::ready(5_u8).maybe_unwind();
    assert_eq!(ready(step(&mut adapter, &mut ctx)).unwrap(), 5);
    assert!(adapter.is_terminated());
    assert!(adapter.resume(&mut ctx).is_none());
    assert!(!ctx.is_set());
}

#[test]
fn panic_ends_the_computation_for_good() {
    let mut ctx = Context::new();
    let mut adapter = Countdown { pending: 5, value: "never" }.maybe_unwind();
    assert!(matches!(step(&mut adapter, &mut ctx), PollOutcome::Pending));
    let unwind = ready(step_raising(&mut adapter, &mut ctx, "bar", 7)).unwrap_err();
    assert_eq!(unwind.payload_str(), "bar");
    assert!(adapter.is_terminated());
    // No further step is entered, and no slot is installed for one.
    assert!(adapter.resume(&mut ctx).is_none());
    assert!(!ctx.is_set());
    // The wrapped computation was not resumed after the panic.
    assert_eq!(adapter.into_inner().pending, 4);
}

#[test]
fn step_on_another_thread_captures_there() {
    // The scheduler runs the first step on one thread and the second on
    // another; each thread has a context of its own.
    let mut first_thread = Context::new();
    let mut second_thread = Context::new();
    let mut adapter = Countdown { pending: 1, value: "never" }.maybe_unwind();
    assert!(matches!(
        step(&mut adapter, &mut first_thread),
        PollOutcome::Pending
    ));
    assert!(!first_thread.is_set());
    let unwind = ready(step_raising(&mut adapter, &mut second_thread, "bar", 33)).unwrap_err();
    assert_eq!(unwind.payload_str(), "bar");
    let location = unwind.location().unwrap();
    assert_eq!(location.file(), THIS_FILE);
    assert_eq!(location.line(), 33);
    assert_eq!(location.column(), 17);
    assert_eq!(unwind.message(), Some("bar"));
    assert!(!first_thread.is_set());
    assert!(!second_thread.is_set());
}

#[test]
fn step_inside_a_supervised_call_puts_its_slot_back() {
    let mut ctx = Context::new();
    let call = ctx.scope();
    let info = PanicInfo {
        location: Some((THIS_FILE, 1, 1)),
        message: Some("kept by the call"),
    };
    assert!(capture_panic_info(&mut ctx, &info, false));
    let mut adapter = Countdown { pending: 1, value: "x" }.maybe_unwind();
    assert!(matches!(step(&mut adapter, &mut ctx), PollOutcome::Pending));
    // The call around the step is supervised again, with its record intact.
    assert!(ctx.is_set());
    let res: Result<(), Unwind<Raw>> =
        maybe_unwind::maybe_unwind(&mut ctx, call, Err(Payload::Str("late")));
    assert_eq!(res.unwrap_err().message(), Some("kept by the call"));
}

#[test]
fn panic_without_hook_still_ends_the_step_with_the_payload() {
    let mut ctx = Context::new();
    let mut adapter = Countdown { pending: 1, value: "x" }.maybe_unwind();
    let guard = adapter.resume(&mut ctx).unwrap();
    let res: Step<&str> = adapter.poll(&mut ctx, guard, Err(Payload::String(String::from("bar"))));
    let unwind = ready(res).unwrap_err();
    assert_eq!(unwind.payload_str(), "bar");
    assert!(unwind.location().is_none());
    assert!(adapter.is_terminated());
}

#[test]
fn adapter_hands_the_computation_out() {
    let mut adapter = MaybeUnwind::new(Countdown { pending: 3, value: "x" });
    adapter.get_mut().pending = 1;
    let inner = adapter.into_inner();
    assert_eq!(inner.pending, 1);
    assert_eq!(inner.value, "x");
}
