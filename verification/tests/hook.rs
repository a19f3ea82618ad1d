//! The hook: what it records, and the registry of the handler it replaced.

use std::any::Any;

use maybe_unwind::{
    capture_panic_info, maybe_unwind, Context, HookRegistry, PanicInfo, Payload, Unwind,
};

type Raw = Box<dyn Any + Send + 'static>;

fn leave(ctx: &mut Context, guard: maybe_unwind::Guard) -> Unwind<Raw> {
    let res: Result<(), Unwind<Raw>> = maybe_unwind(ctx, guard, Err(Payload::Str("bar")));
    res.unwrap_err()
}

#[test]
fn capture_outside_a_supervised_call_does_nothing() {
    let mut ctx = Context::new();
    let info = PanicInfo {
        location: Some(("src/lib.rs", 1, 2)),
        message: Some("bar"),
    };
    assert!(!capture_panic_info(&mut ctx, &info, true));
    assert!(!ctx.is_set());
}

#[test]
fn capture_records_location_and_message() {
    let mut ctx = Context::new();
    let guard = ctx.scope();
    let info = PanicInfo {
        location: Some(("src/lib.rs", 12, 34)),
        message: Some("bar"),
    };
    assert!(capture_panic_info(&mut ctx, &info, false));
    let unwind = leave(&mut ctx, guard);
    let location = unwind.location().unwrap();
    assert_eq!(location.file(), "src/lib.rs");
    assert_eq!(location.line(), 12);
    assert_eq!(location.column(), 34);
    assert_eq!(unwind.message(), Some("bar"));
    assert!(unwind.backtrace().is_none());
}

#[test]
fn capture_records_what_the_runtime_leaves_out_as_absent() {
    let mut ctx = Context::new();
    let guard = ctx.scope();
    let info = PanicInfo {
        location: None,
        message: None,
    };
    assert!(capture_panic_info(&mut ctx, &info, false));
    let unwind = leave(&mut ctx, guard);
    assert!(unwind.location().is_none());
    assert!(unwind.message().is_none());
    assert!(unwind.backtrace().is_none());
    assert_eq!(unwind.to_string_alternate(), "panicked: bar\n");
}

#[test]
fn capture_takes_a_backtrace_only_on_request() {
    let info = PanicInfo {
        location: Some(("src/lib.rs", 1, 1)),
        message: None,
    };
    let mut ctx = Context::new();
    let guard = ctx.scope();
    assert!(capture_panic_info(&mut ctx, &info, true));
    assert!(leave(&mut ctx, guard).backtrace().is_some());
    let guard = ctx.scope();
    assert!(capture_panic_info(&mut ctx, &info, false));
    assert!(leave(&mut ctx, guard).backtrace().is_none());
}

#[test]
fn backtrace_is_rendered_after_the_first_line() {
    let info = PanicInfo {
        location: Some(("src/lib.rs", 3, 5)),
        message: Some("bar"),
    };
    let mut ctx = Context::new();
    let guard = ctx.scope();
    assert!(capture_panic_info(&mut ctx, &info, true));
    let unwind = leave(&mut ctx, guard);
    let trace = unwind.backtrace().unwrap().to_string();
    assert_eq!(
        unwind.to_string_alternate(),
        format!(
            "panicked at src/lib.rs:3:5: bar\nstack backtrace:\n{}\n",
            trace
        )
    );
    assert_eq!(unwind.to_string(), "bar");
}

#[test]
fn new_registry_is_not_installed() {
    let registry: HookRegistry<&str> = HookRegistry::new();
    assert!(!registry.is_installed());
    assert!(registry.previous().is_none());
}

#[test]
fn install_stores_the_active_handler() {
    let mut registry = HookRegistry::new();
    assert_eq!(registry.install("default"), None);
    assert!(registry.is_installed());
    assert_eq!(registry.previous(), Some(&"default"));
}

#[test]
fn install_twice_is_install_once() {
    let mut registry = HookRegistry::new();
    assert_eq!(registry.install("default"), None);
    // The second call hands its handler back and keeps the first.
    assert_eq!(registry.install("capture"), Some("capture"));
    assert!(registry.is_installed());
    assert_eq!(registry.previous(), Some(&"default"));
    assert_eq!(registry.install("third"), Some("third"));
    assert_eq!(registry.uninstall(), Some("default"));
}

#[test]
fn uninstall_without_install_is_a_no_op() {
    let mut registry: HookRegistry<&str> = HookRegistry::new();
    assert_eq!(registry.uninstall(), None);
    assert!(!registry.is_installed());
    assert_eq!(registry.uninstall(), None);
    assert!(!registry.is_installed());
}

#[test]
fn uninstall_hands_the_stored_handler_out_once() {
    let mut registry = HookRegistry::new();
    assert_eq!(registry.install(1_u8), None);
    assert_eq!(registry.uninstall(), Some(1));
    assert!(!registry.is_installed());
    assert_eq!(registry.uninstall(), None);
    // After that the registry takes a handler again.
    assert_eq!(registry.install(2_u8), None);
    assert_eq!(registry.previous(), Some(&2));
}

#[test]
fn unsupervised_panic_is_chained_to_the_stored_handler() {
    let mut registry = HookRegistry::new();
    assert_eq!(registry.install("default"), None);
    let mut ctx = Context::new();
    let info = PanicInfo {
        location: Some(("src/lib.rs", 1, 1)),
        message: Some("bar"),
    };
    assert_eq!(registry.on_panic(&mut ctx, &info, false), Some(&"default"));
    assert!(!ctx.is_set());
}

#[test]
fn supervised_panic_is_captured_and_not_chained() {
    let mut registry = HookRegistry::new();
    assert_eq!(registry.install("default"), None);
    let mut ctx = Context::new();
    let guard = ctx.scope();
    let info = PanicInfo {
        location: Some(("src/lib.rs", 8, 1)),
        message: Some("bar"),
    };
    assert_eq!(registry.on_panic(&mut ctx, &info, false), None);
    let unwind = leave(&mut ctx, guard);
    assert_eq!(unwind.location().unwrap().line(), 8);
    assert_eq!(unwind.message(), Some("bar"));
}

#[test]
fn panic_with_nothing_stored_has_nothing_to_chain_to() {
    let registry: HookRegistry<&str> = HookRegistry::new();
    let mut ctx = Context::new();
    let info = PanicInfo {
        location: None,
        message: None,
    };
    assert_eq!(registry.on_panic(&mut ctx, &info, false), None);
    let guard = ctx.scope();
    assert_eq!(registry.on_panic(&mut ctx, &info, false), None);
    assert!(leave(&mut ctx, guard).message().is_none());
}
