use crate::cause::Cause;
use crate::domain::Domain;
use crate::error::Error;
use crate::fault::{Fault, FaultView, TraceStatus};
use vstd::prelude::*;

verus! {

/// Whether `e` is what a classifier's `outcome` becomes: the domain value it
/// accepted, or a fresh fault (trace disabled) caused by the failure it gave
/// back.
pub open spec fn classified<D: Domain>(outcome: Result<D, Cause>, e: Error<D>) -> bool {
    match outcome {
        Ok(d) => e == Error::<D>::Domain(Box::new(d)),
        Err(c) => match e {
            Error::Fault(f) => f@ == FaultView::fresh(TraceStatus::Disabled).set_source(c),
            Error::Domain(_) => false,
        },
    }
}

/// Escalation of any failed `Result` to a [`Fault`] that drops the failure,
/// for failures that cannot be inspected.
pub trait ResultFault<T, S>: Sized {
    /// An error becomes a fresh fault without cause; trace disabled.
    fn or_fault_no_source(self) -> Result<T, Fault>;

    /// An error becomes a fresh fault without cause that walks the stack.
    fn or_fault_no_source_force(self) -> Result<T, Fault>;
}

impl<T, S> ResultFault<T, S> for Result<T, S> {
    fn or_fault_no_source(self) -> (r: Result<T, Fault>)
        ensures
            self is Ok ==> r == Ok::<T, Fault>(self->Ok_0),
            self is Err ==> r is Err && r->Err_0@ == FaultView::fresh(TraceStatus::Disabled),
    {
        match self {
            Ok(ok) => Ok(ok),
            Err(_) => Err(Fault::new()),
        }
    }

    fn or_fault_no_source_force(self) -> (r: Result<T, Fault>)
        ensures
            self is Ok ==> r == Ok::<T, Fault>(self->Ok_0),
            self is Err ==> r is Err && r->Err_0@ == FaultView::fresh(TraceStatus::Captured),
    {
        match self {
            Ok(ok) => Ok(ok),
            Err(_) => Err(Fault::new_force()),
        }
    }
}

/// Escalation of a `Result` whose failure is a [`Cause`]: the failure is
/// either classified as a domain error or kept as the cause of a fault.
pub trait ResultCause<T>: Sized {
    /// An error is handed to `op`; what it accepts becomes a domain error,
    /// what it gives back becomes the cause of a fresh fault.
    fn map_err_or_fault<F, D>(self, op: F) -> Result<T, Error<D>> where
        F: FnOnce(Cause) -> Result<D, Cause>,
        D: Domain,
        requires
            forall|c: Cause| op.requires((c,)),
    ;

    /// An error becomes the cause of a fresh fault; trace disabled.
    fn or_fault(self) -> Result<T, Fault>;

    /// An error becomes the cause of a fresh fault that walks the stack.
    fn or_fault_force(self) -> Result<T, Fault>;
}

impl<T> ResultCause<T> for Result<T, Cause> {
    fn map_err_or_fault<F, D>(self, op: F) -> (r: Result<T, Error<D>>) where
        F: FnOnce(Cause) -> Result<D, Cause>,
        D: Domain,
        ensures
            self is Ok ==> r == Ok::<T, Error<D>>(self->Ok_0),
            self is Err ==> r is Err && exists|outcome: Result<D, Cause>|
                op.ensures((self->Err_0,), outcome) && classified(outcome, r->Err_0),
    {
        match self {
            Ok(ok) => Ok(ok),
            Err(error) => {
                let outcome = op(error);
                let ghost seen = outcome;
                let e = match outcome {
                    Ok(d) => Error::Domain(Box::new(d)),
                    Err(c) => Error::Fault(Fault::new().with_source(c)),
                };
                let r = Err(e);
                assert(op.ensures((self->Err_0,), seen) && classified(seen, r->Err_0));
                r
            },
        }
    }

    fn or_fault(self) -> (r: Result<T, Fault>)
        ensures
            self is Ok ==> r == Ok::<T, Fault>(self->Ok_0),
            self is Err ==> r is Err && r->Err_0@ == FaultView::fresh(
                TraceStatus::Disabled,
            ).set_source(self->Err_0),
    {
        match self {
            Ok(ok) => Ok(ok),
            Err(error) => Err(Fault::new().with_source(error)),
        }
    }

    fn or_fault_force(self) -> (r: Result<T, Fault>)
        ensures
            self is Ok ==> r == Ok::<T, Fault>(self->Ok_0),
            self is Err ==> r is Err && r->Err_0@ == FaultView::fresh(
                TraceStatus::Captured,
            ).set_source(self->Err_0),
    {
        match self {
            Ok(ok) => Ok(ok),
            Err(error) => Err(Fault::new_force().with_source(error)),
        }
    }
}

/// Context and recovery on a `Result` whose failure is an [`Error`].
pub trait ResultError<T, D: Domain>: Sized {
    /// An error whose cause held right here is of the given kind is
    /// reclassified by `op`; any other error passes unchanged.
    fn try_map_on_source<F>(self, kind: &str, op: F) -> Result<T, Error<D>> where
        F: FnOnce(Cause) -> Error<D>,
        requires
            forall|c: Cause| op.requires((c,)),
    ;

    /// An error gets its context replaced by `context`.
    fn with_context(self, context: &str) -> Result<T, Error<D>>;
}

impl<T, D: Domain> ResultError<T, D> for Result<T, Error<D>> {
    fn try_map_on_source<F>(self, kind: &str, op: F) -> (r: Result<T, Error<D>>) where
        F: FnOnce(Cause) -> Error<D>,
        ensures
            self is Ok ==> r == self,
            self is Err && !self->Err_0.holds_cause_of_kind(kind@) ==> r == self,
            self is Err && self->Err_0.holds_cause_of_kind(kind@) ==> r is Err && op.ensures(
                (self->Err_0.cause_of()->Some_0,),
                r->Err_0,
            ),
    {
        match self {
            Ok(ok) => Ok(ok),
            Err(error) => Err(error.try_recover(kind, op)),
        }
    }

    fn with_context(self, context: &str) -> (r: Result<T, Error<D>>)
        ensures
            self is Ok ==> r == self,
            self is Err ==> r is Err && self->Err_0.context_replaced(context@, r->Err_0),
    {
        match self {
            Ok(ok) => Ok(ok),
            Err(error) => Err(error.with_context(context)),
        }
    }
}

/// Context on a `Result` whose failure is a [`Fault`].
pub trait ResultFaultWithContext<T>: Sized {
    /// A fault gets its context replaced by `context`.
    fn with_context(self, context: &str) -> Result<T, Fault>;
}

impl<T> ResultFaultWithContext<T> for Result<T, Fault> {
    fn with_context(self, context: &str) -> (r: Result<T, Fault>)
        ensures
            self is Ok ==> r == self,
            self is Err ==> r is Err && r->Err_0@ == self->Err_0@.set_context(context@),
    {
        match self {
            Ok(ok) => Ok(ok),
            Err(f) => Err(f.with_context(context)),
        }
    }
}

} // verus!
