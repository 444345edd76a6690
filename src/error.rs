use crate::cause::Cause;
use crate::domain::Domain;
use crate::fault::{text_view, Fault};
use vstd::prelude::*;

verus! {

/// Which of the two cases an [`Error`] holds.
#[derive(Debug, Clone, Copy, PartialEq, Eq, Structural)]
pub enum ErrorKind {
    Domain,
    Fault,
}

/// The error channel of a fallible operation: an expected, presentable
/// [`Domain`] value, or a [`Fault`] that must never leak detail.
#[derive(Debug)]
pub enum Error<D: Domain> {
    Domain(Box<D>),
    Fault(Fault),
}

impl<D: Domain> Error<D> {
    /// The case that is active.
    pub open spec fn kind(&self) -> ErrorKind {
        match self {
            Error::Domain(_) => ErrorKind::Domain,
            Error::Fault(_) => ErrorKind::Fault,
        }
    }

    /// The context of the active case.
    pub open spec fn context_of(&self) -> Option<Seq<char>> {
        match self {
            Error::Domain(d) => d.context_of(),
            Error::Fault(f) => f@.context,
        }
    }

    /// The cause held by the active case.
    pub open spec fn cause_of(&self) -> Option<Cause> {
        match self {
            Error::Domain(d) => d.cause_of(),
            Error::Fault(f) => f@.source,
        }
    }

    /// Whether the cause held right here (not one further down its chain) is
    /// of the given kind.
    pub open spec fn holds_cause_of_kind(&self, kind: Seq<char>) -> bool {
        match self.cause_of() {
            Some(c) => c.is_kind(kind),
            None => false,
        }
    }

    /// Whether `r` is this error with its context replaced by `context`: the
    /// same case, the same cause, and for a fault the same trace.
    pub open spec fn context_replaced(self, context: Seq<char>, r: Self) -> bool {
        match (self, r) {
            (Error::Domain(d), Error::Domain(e)) => {
                &&& e.context_of() == Some(context)
                &&& e.cause_of() == d.cause_of()
            },
            (Error::Fault(f), Error::Fault(g)) => g@ == f@.set_context(context),
            _ => false,
        }
    }

    /// Whether the [`Error::Domain`] case is active.
    pub fn is_domain(&self) -> (r: bool)
        ensures
            r == (self.kind() == ErrorKind::Domain),
    {
        match self {
            Error::Domain(_) => true,
            Error::Fault(_) => false,
        }
    }

    /// Whether the [`Error::Fault`] case is active.
    pub fn is_fault(&self) -> (r: bool)
        ensures
            r == (self.kind() == ErrorKind::Fault),
    {
        !self.is_domain()
    }

    /// Which case is active.
    pub fn classify(&self) -> (r: ErrorKind)
        ensures
            r == self.kind(),
    {
        match self {
            Error::Domain(_) => ErrorKind::Domain,
            Error::Fault(_) => ErrorKind::Fault,
        }
    }

    /// The domain value. Calling it on a fault is a logic error.
    pub fn unwrap(self) -> (r: D)
        requires
            self.kind() == ErrorKind::Domain,
        ensures
            self == Error::<D>::Domain(Box::new(r)),
    {
        match self {
            Error::Domain(d) => *d,
            Error::Fault(_) => vstd::pervasive::unreached(),
        }
    }

    /// The fault. Calling it on a domain value is a logic error.
    pub fn unwrap_fault(self) -> (r: Fault)
        requires
            self.kind() == ErrorKind::Fault,
        ensures
            self == Error::<D>::Fault(r),
    {
        match self {
            Error::Fault(f) => f,
            Error::Domain(_) => vstd::pervasive::unreached(),
        }
    }

    /// The cause held by the active case, if it is of the given kind;
    /// nothing otherwise.
    pub fn downcast_source(self, kind: &str) -> (r: Option<Cause>)
        ensures
            r is Some == self.holds_cause_of_kind(kind@),
            r is Some ==> r == self.cause_of(),
    {
        match self.extract_cause() {
            Some(c) => {
                if c.is(kind) {
                    Some(c)
                } else {
                    None
                }
            },
            None => None,
        }
    }

    /// A reference to the cause held by the active case, if it is of the
    /// given kind.
    pub fn downcast_source_ref(&self, kind: &str) -> (r: Option<&Cause>)
        ensures
            r is Some == self.holds_cause_of_kind(kind@),
            r is Some ==> self.cause_of() == Some(*r->Some_0),
    {
        match self.source() {
            Some(c) => {
                if c.is(kind) {
                    Some(c)
                } else {
                    None
                }
            },
            None => None,
        }
    }

    /// The same error with the context of its active case replaced by
    /// `context`.
    pub fn with_context(self, context: &str) -> (r: Self)
        ensures
            self.context_replaced(context@, r),
    {
        match self {
            Error::Domain(d) => Error::Domain(Box::new((*d).with_context(context))),
            Error::Fault(f) => Error::Fault(f.with_context(context)),
        }
    }

    /// The context of the active case.
    pub fn context(&self) -> (r: Option<&str>)
        ensures
            text_view(r) == self.context_of(),
    {
        match self {
            Error::Domain(d) => d.context(),
            Error::Fault(f) => f.context(),
        }
    }

    /// The cause held by the active case, if any.
    pub fn source(&self) -> (r: Option<&Cause>)
        ensures
            r is Some == self.cause_of() is Some,
            r is Some ==> self.cause_of() == Some(*r->Some_0),
    {
        match self {
            Error::Domain(d) => d.source(),
            Error::Fault(f) => f.source(),
        }
    }

    /// The text shown for the error in diagnostics: the domain value's own
    /// rendering, or the fault's trace, context and cause chain.
    pub fn render(&self) -> (r: String)
        ensures
            self matches Error::Fault(f) ==> exists|trace: Seq<char>| r@ == f@.rendered(trace),
    {
        match self {
            Error::Domain(d) => d.render(),
            Error::Fault(f) => f.render(),
        }
    }

    /// Consumes the error and hands back the cause its active case held.
    pub fn extract_cause(self) -> (r: Option<Cause>)
        ensures
            r == self.cause_of(),
    {
        match self {
            Error::Domain(d) => (*d).into_source(),
            Error::Fault(f) => f.into_source(),
        }
    }

    /// Reclassifies the error by the kind of the cause it holds right here.
    ///
    /// Where that cause is of the given kind, it is taken out and handed to
    /// `op`, whose result is the new error. Otherwise, with no cause or one
    /// of another kind, the error comes back as it was.
    pub fn try_recover<F>(self, kind: &str, op: F) -> (r: Self) where F: FnOnce(Cause) -> Self
        requires
            self.holds_cause_of_kind(kind@) ==> op.requires((self.cause_of()->Some_0,)),
        ensures
            !self.holds_cause_of_kind(kind@) ==> r == self,
            self.holds_cause_of_kind(kind@) ==> op.ensures((self.cause_of()->Some_0,), r),
    {
        let matches = match self.downcast_source_ref(kind) {
            Some(_) => true,
            None => false,
        };
        if matches {
            match self.extract_cause() {
                Some(c) => op(c),
                None => vstd::pervasive::unreached(),
            }
        } else {
            self
        }
    }
}

/// Replacing the context of an error keeps its case and its cause, and makes
/// the new text its context.
pub proof fn lemma_with_context_keeps_kind<D: Domain>(e: Error<D>, context: Seq<char>, r: Error<D>)
    requires
        e.context_replaced(context, r),
    ensures
        r.kind() == e.kind(),
        r.cause_of() == e.cause_of(),
        r.context_of() == Some(context),
{
}

/// Replacing the context of an error twice leaves the second text as its
/// context, with case and cause as they were at the start.
pub proof fn lemma_with_context_last_wins<D: Domain>(
    e: Error<D>,
    first: Seq<char>,
    middle: Error<D>,
    second: Seq<char>,
    r: Error<D>,
)
    requires
        e.context_replaced(first, middle),
        middle.context_replaced(second, r),
    ensures
        r.context_of() == Some(second),
        r.kind() == e.kind(),
        r.cause_of() == e.cause_of(),
{
    lemma_with_context_keeps_kind(e, first, middle);
    lemma_with_context_keeps_kind(middle, second, r);
}

impl<D: Domain> From<Fault> for Error<D> {
    fn from(value: Fault) -> (r: Self) {
        Error::Fault(value)
    }
}

impl<D: Domain> vstd::std_specs::convert::FromSpecImpl<Fault> for Error<D> {
    open spec fn obeys_from_spec() -> bool {
        true
    }

    open spec fn from_spec(v: Fault) -> Self {
        Error::Fault(v)
    }
}

} // verus!
