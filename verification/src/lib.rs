//! A companion to the panic-catching primitive that also hands the caller
//! what the panic hook saw: where the panic was raised, its message and,
//! on request, a stack trace.
//!
//! The hook runs when a panic is signalled, before the stack unwinds; the
//! catching primitive returns after it has unwound. The two meet in a slot
//! that a supervised call installs in its thread's [`Context`] for its own
//! extent: [`Context::scope`] on the way in, [`maybe_unwind`] on the way out,
//! and [`capture_panic_info`] from the hook in between.

pub mod backtrace;
pub mod context;
pub mod futures;
pub mod hook;
pub mod nesting;
pub mod text;
pub mod unwind;

pub use crate::backtrace::Backtrace;
pub use crate::context::{AccessError, Context, Guard, Scope};
pub use crate::futures::{FutureMaybeUnwindExt, MaybeUnwind, PollOutcome};
pub use crate::hook::{capture_panic_info, HookRegistry, PanicInfo};
pub use crate::unwind::{maybe_unwind, Captured, Location, Payload, Unwind};
