use crate::cause::Cause;
use crate::fault::text_view;
use vstd::prelude::*;

verus! {

/// The capability of an expected failure: one that is safe to present to an
/// external caller and travels in [`Error::Domain`](crate::Error::Domain).
///
/// A domain value carries a context that later calls replace, and may own the
/// cause it was built from, which it surrenders when consumed.
pub trait Domain: Sized {
    /// The context currently attached, if any.
    spec fn context_of(&self) -> Option<Seq<char>>;

    /// The cause currently held, if any.
    spec fn cause_of(&self) -> Option<Cause>;

    /// The same value with its context replaced by `context`; the cause is
    /// kept.
    fn with_context(self, context: &str) -> (r: Self)
        ensures
            r.context_of() == Some(context@),
            r.cause_of() == self.cause_of(),
    ;

    /// The context currently attached, if any.
    fn context(&self) -> (r: Option<&str>)
        ensures
            text_view(r) == self.context_of(),
    ;

    /// The cause currently held, if any.
    fn source(&self) -> (r: Option<&Cause>)
        ensures
            r is Some == self.cause_of() is Some,
            r is Some ==> *r->Some_0 == self.cause_of()->Some_0,
    ;

    /// The text shown for this value in diagnostics.
    fn render(&self) -> String;

    /// Consumes the value and hands back the cause it held.
    fn into_source(self) -> (r: Option<Cause>)
        ensures
            r == self.cause_of(),
    ;
}

} // verus!
