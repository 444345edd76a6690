use crate::cause::Cause;
use crate::domain::Domain;
use crate::error::Error;
use crate::fault::{Fault, FaultView, TraceStatus};
use vstd::prelude::*;

verus! {

/// The earlier name of a [`Fault`], kept so that code written against it
/// still builds. It behaves as the fault it wraps and turns into one.
#[derive(Debug)]
pub struct Bug {
    fault: Fault,
}

impl View for Bug {
    type V = FaultView;

    closed spec fn view(&self) -> FaultView {
        self.fault@
    }
}

impl Bug {
    /// A bug without cause or context whose stack trace is disabled.
    pub fn new() -> (r: Bug)
        ensures
            r@ == FaultView::fresh(TraceStatus::Disabled),
    {
        Bug { fault: Fault::new() }
    }

    /// A bug without cause or context that walks the stack now.
    pub fn new_force() -> (r: Bug)
        ensures
            r@ == FaultView::fresh(TraceStatus::Captured),
    {
        Bug { fault: Fault::new_force() }
    }

    /// The same bug, caused by `error`; context and trace are kept.
    pub fn with_source(self, error: Cause) -> (r: Bug)
        ensures
            r@ == self@.set_source(error),
    {
        Bug { fault: self.fault.with_source(error) }
    }

    /// The same bug with its context replaced by `context`.
    pub fn with_context(self, context: &str) -> (r: Bug)
        ensures
            r@ == self@.set_context(context@),
    {
        Bug { fault: self.fault.with_context(context) }
    }

    /// The fault this bug stands for.
    pub fn into_fault(self) -> (r: Fault)
        ensures
            r@ == self@,
    {
        self.fault
    }
}

impl<D: Domain> From<Bug> for Error<D> {
    fn from(value: Bug) -> (r: Self)
        ensures
            r is Fault && r->Fault_0@ == value@,
    {
        Error::Fault(value.fault)
    }
}

impl<D: Domain> vstd::std_specs::convert::FromSpecImpl<Bug> for Error<D> {
    open spec fn obeys_from_spec() -> bool {
        true
    }

    closed spec fn from_spec(v: Bug) -> Self {
        Error::Fault(v.fault)
    }
}

/// Escalation of an absent value to a [`Bug`], under the earlier names.
pub trait OptionBug<T>: Sized {
    /// A present value passes; an absent one becomes a fresh bug, trace
    /// disabled.
    fn bug(self) -> Result<T, Bug>;

    /// A present value passes; an absent one becomes a fresh bug that walks
    /// the stack.
    fn bug_force(self) -> Result<T, Bug>;
}

impl<T> OptionBug<T> for Option<T> {
    fn bug(self) -> (r: Result<T, Bug>)
        ensures
            self is Some ==> r == Ok::<T, Bug>(self->Some_0),
            self is None ==> r is Err && r->Err_0@ == FaultView::fresh(TraceStatus::Disabled),
    {
        match self {
            Some(ok) => Ok(ok),
            None => Err(Bug::new()),
        }
    }

    fn bug_force(self) -> (r: Result<T, Bug>)
        ensures
            self is Some ==> r == Ok::<T, Bug>(self->Some_0),
            self is None ==> r is Err && r->Err_0@ == FaultView::fresh(TraceStatus::Captured),
    {
        match self {
            Some(ok) => Ok(ok),
            None => Err(Bug::new_force()),
        }
    }
}

/// Context on a `Result` whose failure is a [`Bug`].
pub trait ResultBugWithContext<T>: Sized {
    /// A bug gets its context replaced by `context`.
    fn with_context(self, context: &str) -> Result<T, Bug>;
}

impl<T> ResultBugWithContext<T> for Result<T, Bug> {
    fn with_context(self, context: &str) -> (r: Result<T, Bug>)
        ensures
            self is Ok ==> r == self,
            self is Err ==> r is Err && r->Err_0@ == self->Err_0@.set_context(context@),
    {
        match self {
            Ok(ok) => Ok(ok),
            Err(b) => Err(b.with_context(context)),
        }
    }
}

} // verus!
