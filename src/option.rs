use crate::fault::{Fault, FaultView, TraceStatus};
use vstd::prelude::*;

verus! {

/// Escalation of an absent value to a [`Fault`].
pub trait OptionFault<T>: Sized {
    /// A present value passes; an absent one becomes a fresh fault without
    /// cause, trace disabled.
    fn ok_or_fault(self) -> Result<T, Fault>;

    /// A present value passes; an absent one becomes a fresh fault without
    /// cause that walks the stack.
    fn ok_or_fault_force(self) -> Result<T, Fault>;
}

impl<T> OptionFault<T> for Option<T> {
    fn ok_or_fault(self) -> (r: Result<T, Fault>)
        ensures
            self is Some ==> r == Ok::<T, Fault>(self->Some_0),
            self is None ==> r is Err && r->Err_0@ == FaultView::fresh(TraceStatus::Disabled),
    {
        match self {
            Some(ok) => Ok(ok),
            None => Err(Fault::new()),
        }
    }

    fn ok_or_fault_force(self) -> (r: Result<T, Fault>)
        ensures
            self is Some ==> r == Ok::<T, Fault>(self->Some_0),
            self is None ==> r is Err && r->Err_0@ == FaultView::fresh(TraceStatus::Captured),
    {
        match self {
            Some(ok) => Ok(ok),
            None => Err(Fault::new_force()),
        }
    }
}

} // verus!
