//! The panic hook's side of the protocol: what it records, where the record
//! goes, and which handler runs when nobody is supervising.

use vstd::prelude::*;
use vstd::string::StringExecFns;

use crate::backtrace::Backtrace;
use crate::context::{deliver, Context};
use crate::unwind::{Captured, Location, LocationView};

verus! {

/// What the runtime tells the panic hook about the panic that is being
/// signalled.
#[derive(Debug)]
pub struct PanicInfo<'a> {
    /// The source file, line and column at which the panic was raised.
    pub location: Option<(&'a str, u32, u32)>,
    /// The panic message, where the payload is a string.
    pub message: Option<&'a str>,
}

/// Whether `record` is a record of the panic `info`: the same location and
/// message, and a stack trace exactly if `backtrace` asks for one.
pub open spec fn records(record: Captured, info: PanicInfo<'_>, backtrace: bool) -> bool {
    &&& match info.location {
        Some((file, line, column)) => record.location is Some && record.location->0@ == (
        LocationView { file: file@, line, column }),
        None => record.location is None,
    }
    &&& match info.message {
        Some(message) => record.message is Some && record.message->0@ == message@,
        None => record.message is None,
    }
    &&& record.backtrace is Some <==> backtrace
}

/// Capture the panic information.
///
/// `info` describes the panic that is being signalled on the thread that
/// owns `ctx`. If a supervised call is in progress there, the panic is
/// recorded in its slot, together with a snapshot of the stack if
/// `backtrace` asks for one, and the result is `true`. A slot that already
/// holds a record keeps it.
///
/// If no supervised call is in progress, this function does nothing and
/// returns `false`; no snapshot is taken then.
pub fn capture_panic_info(ctx: &mut Context, info: &PanicInfo<'_>, backtrace: bool) -> (captured:
    bool)
    ensures
        captured == (old(ctx)@ is Some),
        old(ctx)@ is None ==> final(ctx)@ is None,
        old(ctx)@ is Some ==> exists|record: Captured|
            #![trigger deliver(old(ctx)@, record)]
            records(record, *info, backtrace) && final(ctx)@ == deliver(old(ctx)@, record),
{
    if !ctx.is_set() {
        return false;
    }
    let location = match info.location {
        Some((file, line, column)) => Some(Location::new(String::from_str(file), line, column)),
        None => None,
    };
    let message = match info.message {
        Some(message) => Some(String::from_str(message)),
        None => None,
    };
    let backtrace = if backtrace {
        Some(Backtrace::capture())
    } else {
        None
    };
    let record = Captured { location, message, backtrace };
    let supervised = ctx.deliver(record);
    assert(ctx@ == deliver(old(ctx)@, record));
    supervised
}

/// The registry after `install` was called on it with the handler `active`:
/// the first handler stays.
pub open spec fn installed<H>(registry: Option<H>, active: H) -> Option<H> {
    if registry is None {
        Some(active)
    } else {
        registry
    }
}

/// What `install` hands back: nothing when it stored `active`, `active` itself
/// when a handler was stored already.
pub open spec fn rejected<H>(registry: Option<H>, active: H) -> Option<H> {
    if registry is None {
        None
    } else {
        Some(active)
    }
}

/// The registry after `uninstall` was called on it, and the handler that
/// the call hands out to be made active again.
pub open spec fn uninstalled<H>(registry: Option<H>) -> (Option<H>, Option<H>) {
    (None, registry)
}

/// The process-wide record of the handler that was active before the capture
/// hook took its place. `H` is the type of a handler.
///
/// The registry is installed exactly while it stores a handler.
#[derive(Debug)]
pub struct HookRegistry<H> {
    previous: Option<H>,
}

impl<H> View for HookRegistry<H> {
    type V = Option<H>;

    closed spec fn view(&self) -> Option<H> {
        self.previous
    }
}

impl<H> HookRegistry<H> {
    /// A registry in which nothing is installed.
    pub fn new() -> (registry: HookRegistry<H>)
        ensures
            registry@ is None,
    {
        HookRegistry { previous: None }
    }

    /// Whether the capture hook is installed.
    pub fn is_installed(&self) -> (yes: bool)
        ensures
            yes == (self@ is Some),
    {
        self.previous.is_some()
    }

    /// Installs the capture hook over `active`, the handler that is active
    /// now. The first call stores `active` and returns `None`: the caller then
    /// makes the capture hook the active handler. Once a handler is stored the
    /// call changes nothing and hands `active` back.
    pub fn install(&mut self, active: H) -> (back: Option<H>)
        ensures
            final(self)@ == installed(old(self)@, active),
            back == rejected(old(self)@, active),
    {
        if self.previous.is_none() {
            self.previous = Some(active);
            None
        } else {
            Some(active)
        }
    }

    /// Uninstalls the capture hook: clears the registry and returns the
    /// stored handler for the caller to make active again. Without a stored
    /// handler it changes nothing and returns `None`.
    pub fn uninstall(&mut self) -> (previous: Option<H>)
        ensures
            (final(self)@, previous) == uninstalled(old(self)@),
    {
        self.previous.take()
    }

    /// The handler to chain to, if one is stored.
    pub fn previous(&self) -> (previous: Option<&H>)
        ensures
            previous is Some <==> self@ is Some,
            previous is Some ==> *previous->0 == self@->0,
    {
        self.previous.as_ref()
    }

    /// What the capture hook does when a panic is signalled on the thread
    /// that owns `ctx`.
    ///
    /// Under supervision the panic is recorded as [`capture_panic_info`] says
    /// and the result is `None`: a captured panic is not reported a second
    /// time. Without supervision nothing is recorded and the result is the
    /// stored handler, which the caller must run so that the panic is still
    /// reported.
    pub fn on_panic(&self, ctx: &mut Context, info: &PanicInfo<'_>, backtrace: bool) -> (chained:
        Option<&H>)
        ensures
            old(ctx)@ is Some ==> chained is None,
            old(ctx)@ is None ==> final(ctx)@ is None && (chained is Some <==> self@ is Some) && (
            chained is Some ==> *chained->0 == self@->0),
            old(ctx)@ is Some ==> exists|record: Captured|
                #![trigger deliver(old(ctx)@, record)]
                records(record, *info, backtrace) && final(ctx)@ == deliver(old(ctx)@, record),
    {
        if capture_panic_info(ctx, info, backtrace) {
            None
        } else {
            self.previous()
        }
    }
}

/// Installing twice is installing once: the second call leaves the registry
/// as the first made it and hands its handler straight back, whatever the
/// registry held before the first.
pub proof fn lemma_install_twice_is_once<H>(registry: Option<H>, first: H, second: H)
    ensures
        installed(installed(registry, first), second) == installed(registry, first),
        rejected(installed(registry, first), second) == Some(second),
{
}

/// Uninstalling what was never installed does nothing: the registry stays
/// empty and there is no handler to make active again.
pub proof fn lemma_uninstall_without_install_does_nothing<H>()
    ensures
        uninstalled(None::<H>) == (None::<H>, None::<H>),
{
}

/// Uninstalling twice is uninstalling once, and uninstalling after a first
/// install hands out the very handler that the install stored.
pub proof fn lemma_uninstall_undoes_install<H>(registry: Option<H>, active: H)
    ensures
        uninstalled(uninstalled(registry).0) == (None::<H>, None::<H>),
        uninstalled(installed(None, active)) == (None::<H>, Some(active)),
{
}

} // verus!
