use crate::cause::{chain_debug, errors_chain_debug, Cause};
use std::backtrace::Backtrace;
use vstd::prelude::*;

verus! {

#[verifier::external_type_specification]
#[verifier::external_body]
pub struct ExBacktrace(Backtrace);

/// Relies on `Backtrace::disabled`: a backtrace that walks no stack, at no cost.
pub assume_specification[ Backtrace::disabled ]() -> Backtrace;

/// Relies on `Backtrace::force_capture`: walks the current stack whatever the
/// environment asks for.
pub assume_specification[ Backtrace::force_capture ]() -> Backtrace;

/// Which kind of stack trace a fault took when it was built.
///
/// The status follows the constructor that was used, never the environment:
/// the plain constructors take a disabled trace, the forced ones walk the
/// stack (where the platform can).
#[derive(Debug, Clone, Copy, PartialEq, Eq, Structural)]
pub enum TraceStatus {
    /// The cheap default: no stack was walked.
    Disabled,
    /// The stack was walked at construction, by request.
    Captured,
}

/// What a [`Fault`] holds, as far as its behaviour depends on it.
pub struct FaultView {
    pub source: Option<Cause>,
    pub status: TraceStatus,
    pub context: Option<Seq<char>>,
}

impl FaultView {
    /// A fault just built: no cause, no context.
    pub open spec fn fresh(status: TraceStatus) -> FaultView {
        FaultView { source: None, status, context: None }
    }

    /// The same fault with its context replaced by `context`.
    pub open spec fn set_context(self, context: Seq<char>) -> FaultView {
        FaultView { context: Some(context), ..self }
    }

    /// The same fault with its cause replaced by `source`.
    pub open spec fn set_source(self, source: Cause) -> FaultView {
        FaultView { source: Some(source), ..self }
    }

    /// The rendering of the fault, given the text of its stack trace.
    pub open spec fn rendered(self, trace: Seq<char>) -> Seq<char> {
        trace_section(self.status, trace) + context_section(self.context) + source_section(
            self.source,
        )
    }
}

/// Replacing a fault's context twice leaves only the second text: the fault
/// is then exactly the one that had the second text set once, so the first
/// text shows neither in its context nor in its rendering.
pub proof fn lemma_fault_context_last_wins(f: FaultView, first: Seq<char>, second: Seq<char>)
    ensures
        f.set_context(first).set_context(second) == f.set_context(second),
        f.set_context(first).set_context(second).context == Some(second),
        forall|trace: Seq<char>|
            f.set_context(first).set_context(second).rendered(trace) == #[trigger] f.set_context(
                second,
            ).rendered(trace),
{
}

/// The stack trace followed by a rule, only where one was captured.
pub open spec fn trace_section(status: TraceStatus, trace: Seq<char>) -> Seq<char> {
    match status {
        TraceStatus::Captured => trace + "\n ----------------------- \n\n"@,
        TraceStatus::Disabled => Seq::empty(),
    }
}

/// `Context: <text>` on a line of its own, only where a context is set.
pub open spec fn context_section(context: Option<Seq<char>>) -> Seq<char> {
    match context {
        Some(text) => "Context: "@ + text + "\n"@,
        None => Seq::empty(),
    }
}

/// The causal chain and the message of the cause, only where one is set.
pub open spec fn source_section(source: Option<Cause>) -> Seq<char> {
    match source {
        Some(c) => "Source: "@ + chain_debug(c) + ", "@ + c.message@ + "\n"@,
        None => Seq::empty(),
    }
}

/// The view of an optional text.
pub open spec fn text_view(t: Option<&str>) -> Option<Seq<char>> {
    match t {
        Some(s) => Some(s@),
        None => None,
    }
}

/// A failure that should not happen but must not abort the process.
///
/// It owns an optional cause, a stack trace taken when it was built, and an
/// optional context that later calls replace rather than extend.
#[derive(Debug)]
pub struct Fault {
    pub source: Option<Cause>,
    backtrace: Backtrace,
    status: TraceStatus,
    context: Option<String>,
}

impl View for Fault {
    type V = FaultView;

    closed spec fn view(&self) -> FaultView {
        FaultView {
            source: self.source,
            status: self.status,
            context: match self.context {
                Some(c) => Some(c@),
                None => None,
            },
        }
    }
}

impl Fault {
    /// A fault without cause or context whose stack trace is disabled.
    pub fn new() -> (r: Fault)
        ensures
            r@ == FaultView::fresh(TraceStatus::Disabled),
    {
        Fault {
            source: None,
            backtrace: Backtrace::disabled(),
            status: TraceStatus::Disabled,
            context: None,
        }
    }

    /// A fault without cause or context that walks the stack now.
    pub fn new_force() -> (r: Fault)
        ensures
            r@ == FaultView::fresh(TraceStatus::Captured),
    {
        Fault {
            source: None,
            backtrace: Backtrace::force_capture(),
            status: TraceStatus::Captured,
            context: None,
        }
    }

    /// The same fault, caused by `error`; context and trace are kept.
    pub fn with_source(self, error: Cause) -> (r: Fault)
        ensures
            r@ == self@.set_source(error),
    {
        Fault { source: Some(error), ..self }
    }

    /// The same fault with its context replaced by `context`; cause and trace
    /// are kept.
    pub fn with_context(self, context: &str) -> (r: Fault)
        ensures
            r@ == self@.set_context(context@),
    {
        Fault { context: Some(String::from_str(context)), ..self }
    }

    /// The context, if one was set.
    pub fn context(&self) -> (r: Option<&str>)
        ensures
            text_view(r) == self@.context,
    {
        match &self.context {
            Some(c) => Some(c.as_str()),
            None => None,
        }
    }

    /// Whether the stack was walked when this fault was built.
    pub fn backtrace_status(&self) -> (r: TraceStatus)
        ensures
            r == self@.status,
    {
        self.status
    }

    /// The cause, if one is attached.
    pub fn source(&self) -> (r: Option<&Cause>)
        ensures
            r is Some == self@.source is Some,
            r is Some ==> *r->Some_0 == self@.source->Some_0,
    {
        self.source.as_ref()
    }

    /// Gives up the fault and hands back its cause.
    pub fn into_source(self) -> (r: Option<Cause>)
        ensures
            r == self@.source,
    {
        self.source
    }

    /// Renders the fault with `trace` standing for its stack trace.
    pub fn render_with_trace(&self, trace: &str) -> (r: String)
        ensures
            r@ == self@.rendered(trace@),
    {
        let mut out = String::new();
        if self.status == TraceStatus::Captured {
            out.append(trace);
            out.append("\n ----------------------- \n\n");
        }
        let ghost after_trace = out@;
        if let Some(c) = &self.context {
            out.append("Context: ");
            out.append(c.as_str());
            out.append("\n");
        }
        let ghost after_context = out@;
        if let Some(s) = &self.source {
            let chain = errors_chain_debug(s);
            out.append("Source: ");
            out.append(chain.as_str());
            out.append(", ");
            out.append(s.message.as_str());
            out.append("\n");
        }
        assert(after_trace =~= trace_section(self@.status, trace@));
        assert(after_context =~= after_trace + context_section(self@.context));
        assert(out@ =~= after_context + source_section(self@.source));
        out
    }

    /// Renders the fault: the stack trace where one was captured, then the
    /// context where one is set, then the cause and its chain where one is
    /// attached. An absent part leaves no trace in the text.
    pub fn render(&self) -> (r: String)
        ensures
            self@.status == TraceStatus::Disabled ==> r@ == self@.rendered(Seq::empty()),
            exists|trace: Seq<char>| r@ == self@.rendered(trace),
    {
        let trace = if self.status == TraceStatus::Captured {
            self.backtrace.to_string()
        } else {
            String::new()
        };
        self.render_with_trace(trace.as_str())
    }
}

impl Default for Fault {
    fn default() -> (r: Fault)
        ensures
            r@ == FaultView::fresh(TraceStatus::Disabled),
    {
        Fault::new()
    }
}

} // verus!
