//! The stack trace that may accompany a captured panic.

use vstd::prelude::*;

pub use std::backtrace::Backtrace;

verus! {

/// `std::backtrace::Backtrace`, a snapshot of a thread's stack. The library
/// carries it from the hook to the caller and renders it as it renders
/// itself; it reads nothing else of it.
#[verifier::external_type_specification]
#[verifier::external_body]
pub struct ExBacktrace(std::backtrace::Backtrace);

/// `Backtrace::capture` takes a snapshot of the calling thread's stack.
///
/// Whether frames are recorded depends on the process environment, so
/// nothing is claimed of the snapshot.
pub assume_specification[ std::backtrace::Backtrace::capture ]() -> std::backtrace::Backtrace
;

} // verus!
