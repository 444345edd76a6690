use vstd::prelude::*;

verus! {

/// A failure value with its concrete kind made explicit.
///
/// `kind` names the concrete type the failure came from; it is the identity
/// that recovery by type matches on. `debug` and `message` are its debug and
/// display renderings, and `source` is the failure that caused this one.
#[derive(Debug, PartialEq, Eq)]
pub struct Cause {
    pub kind: String,
    pub debug: String,
    pub message: String,
    pub source: Option<Box<Cause>>,
}

/// The debug renderings of `c` and of every cause behind it, joined by `->`.
pub open spec fn chain_debug(c: Cause) -> Seq<char>
    decreases c,
{
    match c.source {
        None => c.debug@,
        Some(next) => c.debug@ + "->"@ + chain_debug(*next),
    }
}

impl Cause {
    /// Whether this cause is of the given kind.
    pub open spec fn is_kind(&self, kind: Seq<char>) -> bool {
        self.kind@ == kind
    }

    /// A cause of the given kind and renderings, caused by nothing further.
    pub fn new(kind: &str, debug: &str, message: &str) -> (r: Cause)
        ensures
            r.kind@ == kind@,
            r.debug@ == debug@,
            r.message@ == message@,
            r.source is None,
    {
        Cause {
            kind: String::from_str(kind),
            debug: String::from_str(debug),
            message: String::from_str(message),
            source: None,
        }
    }

    /// This cause, now caused by `source` (replacing any earlier one).
    pub fn with_source(self, source: Cause) -> (r: Cause)
        ensures
            r.kind == self.kind,
            r.debug == self.debug,
            r.message == self.message,
            r.source == Some(Box::new(source)),
    {
        Cause { source: Some(Box::new(source)), ..self }
    }

    /// Whether this cause is of the given kind.
    pub fn is(&self, kind: &str) -> (r: bool)
        ensures
            r == self.is_kind(kind@),
    {
        let wanted = String::from_str(kind);
        self.kind.eq(&wanted)
    }
}

/// Renders `source` and its whole causal chain as debug forms joined by `->`.
pub fn errors_chain_debug(source: &Cause) -> (r: String)
    ensures
        r@ == chain_debug(*source),
    decreases source,
{
    let mut out = source.debug.clone();
    match &source.source {
        None => {},
        Some(next) => {
            let rest = errors_chain_debug(next);
            out.append("->");
            out.append(rest.as_str());
        },
    }
    out
}

} // verus!
