//! What the caller of a supervised computation gets back when it panicked.

use vstd::prelude::*;
use vstd::string::StringExecFns;

use crate::backtrace::Backtrace;
use crate::context::{deliver, enter, landed, leave, Context, ContextView, Guard};
use crate::text::{decimal, push_decimal};

verus! {

/// What the panic hook recorded at the instant a panic was signalled.
#[derive(Debug)]
pub struct Captured {
    /// Where the panic was raised, if the runtime told.
    pub location: Option<Location>,
    /// The panic message, if it was a string.
    pub message: Option<String>,
    /// A snapshot of the stack, if the hook was asked for one.
    pub backtrace: Option<Backtrace>,
}

/// The information about the location of an unwinding panic.
#[derive(Debug)]
pub struct Location {
    file: String,
    line: u32,
    column: u32,
}

/// A location as contracts see it.
pub struct LocationView {
    pub file: Seq<char>,
    pub line: u32,
    pub column: u32,
}

impl LocationView {
    /// `file:line:column`, with both numbers in decimal.
    pub open spec fn text(self) -> Seq<char> {
        self.file + seq![':'] + decimal(self.line as nat) + seq![':'] + decimal(
            self.column as nat,
        )
    }
}

impl View for Location {
    type V = LocationView;

    closed spec fn view(&self) -> LocationView {
        LocationView { file: self.file@, line: self.line, column: self.column }
    }
}

impl Location {
    /// A location in the source file `file`, at the given line and column.
    pub fn new(file: String, line: u32, column: u32) -> (location: Location)
        ensures
            location@ == (LocationView { file: file@, line, column }),
    {
        Location { file, line, column }
    }

    /// Return the name of the source file from which the panic originated.
    pub fn file(&self) -> (file: &str)
        ensures
            file@ == self@.file,
    {
        self.file.as_str()
    }

    /// Return the line number from which the panic originated.
    pub fn line(&self) -> (line: u32)
        ensures
            line == self@.line,
    {
        self.line
    }

    /// Return the column from which the panic originated.
    pub fn column(&self) -> (column: u32)
        ensures
            column == self@.column,
    {
        self.column
    }

    /// Renders the location as `file:line:column`.
    pub fn to_string(&self) -> (text: String)
        ensures
            text@ == self@.text(),
    {
        proof {
            reveal_strlit(":");
        }
        let mut text = String::from_str(self.file.as_str());
        text.append(":");
        push_decimal(&mut text, self.line);
        text.append(":");
        push_decimal(&mut text, self.column);
        assert(":"@ =~= seq![':']);
        text
    }
}

/// The value that a panic was raised with.
///
/// The two kinds of string that panics commonly carry are told apart from
/// everything else, which stays behind `Other` untouched.
#[derive(Debug)]
pub enum Payload<P> {
    /// A string literal, as `panic!("...")` without arguments raises.
    Str(&'static str),
    /// An owned string, as `panic!` with format arguments raises.
    String(String),
    /// Any other value.
    Other(P),
}

impl<P> Payload<P> {
    /// The string that stands for the payload: the string itself where the
    /// payload is one, a fixed placeholder otherwise.
    pub open spec fn text(self) -> Seq<char> {
        match self {
            Payload::Str(s) => s@,
            Payload::String(s) => s@,
            Payload::Other(_) => "Box<dyn Any>"@,
        }
    }

    /// Return the string representation of the payload.
    pub fn as_str(&self) -> (s: &str)
        ensures
            s@ == self.text(),
    {
        match self {
            Payload::Str(s) => s,
            Payload::String(s) => s.as_str(),
            Payload::Other(_) => "Box<dyn Any>",
        }
    }
}

/// The text of the long rendering of a panic with message `msg`, raised at
/// `location`, with the stack trace `trace`.
pub open spec fn report_text(
    msg: Seq<char>,
    location: Option<LocationView>,
    trace: Option<Seq<char>>,
) -> Seq<char> {
    let head = match location {
        Some(l) => "panicked at "@ + l.text() + ": "@ + msg + "\n"@,
        None => "panicked: "@ + msg + "\n"@,
    };
    match trace {
        Some(t) => head + "stack backtrace:\n"@ + t + "\n"@,
        None => head,
    }
}

/// Renders the long form of a panic: a line that names the location, where
/// it is known, and the message, then the stack trace, where there is one.
pub fn report(msg: &str, location: Option<&Location>, trace: Option<&str>) -> (text: String)
    ensures
        text@ == report_text(
            msg@,
            match location {
                Some(l) => Some(l@),
                None => None,
            },
            match trace {
                Some(t) => Some(t@),
                None => None,
            },
        ),
{
    let mut text = match location {
        Some(l) => {
            let mut head = String::from_str("panicked at ");
            let place = l.to_string();
            head.append(place.as_str());
            head.append(": ");
            head
        },
        None => String::from_str("panicked: "),
    };
    text.append(msg);
    text.append("\n");
    match trace {
        Some(t) => {
            text.append("stack backtrace:\n");
            text.append(t);
            text.append("\n");
        },
        None => {},
    }
    text
}

/// The captured information about an unwinding panic.
#[derive(Debug)]
pub struct Unwind<P> {
    payload: Payload<P>,
    captured: Option<Captured>,
}

/// An [`Unwind`] as contracts see it.
pub struct UnwindView<P> {
    /// The payload, exactly as the catching primitive handed it over.
    pub payload: Payload<P>,
    /// The record that the panic hook left, if it ran under supervision.
    pub captured: Option<Captured>,
}

impl<P> UnwindView<P> {
    /// Where the panic was raised, as far as the hook recorded it.
    pub open spec fn location(self) -> Option<Location> {
        match self.captured {
            Some(c) => c.location,
            None => None,
        }
    }

    /// The message that the hook recorded.
    pub open spec fn message(self) -> Option<String> {
        match self.captured {
            Some(c) => c.message,
            None => None,
        }
    }

    /// The stack trace that the hook recorded.
    pub open spec fn backtrace(self) -> Option<Backtrace> {
        match self.captured {
            Some(c) => c.backtrace,
            None => None,
        }
    }

    /// The long rendering, given the text of the stack trace.
    pub open spec fn report(self, trace: Option<Seq<char>>) -> Seq<char> {
        report_text(
            self.payload.text(),
            match self.location() {
                Some(l) => Some(l@),
                None => None,
            },
            trace,
        )
    }
}

/// What a caller learns of a panic with the payload `payload` when the
/// supervised call leaves the context `ctx`.
pub open spec fn unwound<P>(payload: Payload<P>, ctx: ContextView) -> UnwindView<P> {
    UnwindView { payload, captured: landed(ctx) }
}

impl<P> View for Unwind<P> {
    type V = UnwindView<P>;

    closed spec fn view(&self) -> UnwindView<P> {
        UnwindView { payload: self.payload, captured: self.captured }
    }
}

impl<P> Unwind<P> {
    /// Pairs a payload with what the hook captured for it.
    pub fn new(payload: Payload<P>, captured: Option<Captured>) -> (unwind: Unwind<P>)
        ensures
            unwind@ == (UnwindView { payload, captured }),
    {
        Unwind { payload, captured }
    }

    /// Return the payload associated with the captured panic.
    pub fn payload(&self) -> (payload: &Payload<P>)
        ensures
            *payload == self@.payload,
    {
        &self.payload
    }

    /// Return the string representation of the panic payload.
    pub fn payload_str(&self) -> (s: &str)
        ensures
            s@ == self@.payload.text(),
    {
        self.payload.as_str()
    }

    /// Convert itself into the panic payload.
    pub fn into_payload(self) -> (payload: Payload<P>)
        ensures
            payload == self@.payload,
    {
        self.payload
    }

    /// Return the information about the location from which the panic
    /// originated.
    pub fn location(&self) -> (location: Option<&Location>)
        ensures
            location is Some <==> self@.location() is Some,
            location is Some ==> *location->0 == self@.location()->0,
    {
        match &self.captured {
            Some(c) => c.location.as_ref(),
            None => None,
        }
    }

    /// Return the panic message that the hook recorded.
    pub fn message(&self) -> (message: Option<&str>)
        ensures
            message is Some <==> self@.message() is Some,
            message is Some ==> message->0@ == self@.message()->0@,
    {
        match &self.captured {
            Some(c) => match &c.message {
                Some(m) => Some(m.as_str()),
                None => None,
            },
            None => None,
        }
    }

    /// Get the stack backtrace captured by the panic hook.
    pub fn backtrace(&self) -> (backtrace: Option<&Backtrace>)
        ensures
            backtrace is Some <==> self@.backtrace() is Some,
            backtrace is Some ==> *backtrace->0 == self@.backtrace()->0,
    {
        match &self.captured {
            Some(c) => c.backtrace.as_ref(),
            None => None,
        }
    }

    /// The short rendering: the payload's string and nothing else.
    pub fn to_string(&self) -> (text: String)
        ensures
            text@ == self@.payload.text(),
    {
        String::from_str(self.payload_str())
    }

    /// The long rendering: location and message, then the stack trace if one
    /// was captured. The text of the trace is whatever the trace renders to.
    pub fn to_string_alternate(&self) -> (text: String)
        ensures
            self@.backtrace() is None ==> text@ == self@.report(None),
            self@.backtrace() is Some ==> exists|trace: Seq<char>|
                text@ == self@.report(Some(trace)),
    {
        match self.backtrace() {
            Some(backtrace) => {
                let trace = backtrace.to_string();
                let text = report(self.payload_str(), self.location(), Some(trace.as_str()));
                assert(text@ == self@.report(Some(trace@)));
                text
            },
            None => report(self.payload_str(), self.location(), None),
        }
    }
}

/// Leaves a supervised call and says how it ended.
///
/// `guard` is what [`Context::scope`] returned when the call entered, and
/// `outcome` is what the catching primitive made of the computation: its
/// result, or the payload of the panic that ended it. The slot that the call
/// found on entry is put back whichever it is. A result passes through
/// unchanged; a payload is paired with the record that landed in the call's
/// own slot.
pub fn maybe_unwind<R, P>(ctx: &mut Context, guard: Guard, outcome: Result<R, Payload<P>>) -> (res:
    Result<R, Unwind<P>>)
    ensures
        final(ctx)@ == leave(old(ctx)@, guard@).0,
        match outcome {
            Ok(r) => res == Ok::<R, Unwind<P>>(r),
            Err(payload) => res is Err && res->Err_0@ == unwound(payload, old(ctx)@),
        },
{
    let captured = guard.release(ctx);
    match outcome {
        Ok(r) => Ok(r),
        Err(payload) => Err(Unwind::new(payload, captured)),
    }
}

/// A panic that the hook never saw still comes back to the caller, but
/// without a record: no location, no message, no stack trace.
pub proof fn lemma_unhooked_panic_has_no_record<P>(before: ContextView, payload: Payload<P>)
    ensures
        unwound(payload, enter(before).0).payload == payload,
        unwound(payload, enter(before).0).captured is None,
        unwound(payload, enter(before).0).location() is None,
        unwound(payload, enter(before).0).message() is None,
        unwound(payload, enter(before).0).backtrace() is None,
{
}

/// A panic that the hook saw comes back with the payload untouched and with
/// exactly what the hook recorded while the call's own slot was installed.
pub proof fn lemma_hooked_panic_has_its_record<P>(
    before: ContextView,
    payload: Payload<P>,
    record: Captured,
)
    ensures
        unwound(payload, deliver(enter(before).0, record)).payload == payload,
        unwound(payload, deliver(enter(before).0, record)).captured == Some(record),
        unwound(payload, deliver(enter(before).0, record)).location() == record.location,
{
}

/// The long rendering holds the payload's string, whole and in one piece,
/// whatever the location and the stack trace are.
pub proof fn lemma_report_contains_message(
    msg: Seq<char>,
    location: Option<LocationView>,
    trace: Option<Seq<char>>,
)
    ensures
        exists|from: int|
            0 <= from && from + msg.len() <= report_text(msg, location, trace).len()
                && #[trigger] report_text(msg, location, trace).subrange(
                from,
                from + msg.len(),
            ) == msg,
{
    let head = match location {
        Some(l) => "panicked at "@ + l.text() + ": "@,
        None => "panicked: "@,
    };
    let rest = match trace {
        Some(t) => "\n"@ + "stack backtrace:\n"@ + t + "\n"@,
        None => "\n"@,
    };
    let text = report_text(msg, location, trace);
    assert(text =~= head + msg + rest);
    let from = head.len() as int;
    assert(text.subrange(from, from + msg.len()) =~= msg);
}

} // verus!
