use crate::cause::Cause;
use crate::domain::Domain;
use crate::error::Error;
use crate::fault::text_view;
use vstd::prelude::*;

verus! {

/// What a program shows when a domain error ends it: a message for the user
/// and the process exit code, plus a context for diagnostics.
#[derive(Debug)]
pub struct ExitError {
    pub message: String,
    pub exit_code: u8,
    pub context: Option<String>,
}

impl ExitError {
    /// An exit output without context.
    pub fn new(message: &str, exit_code: u8) -> (r: ExitError)
        ensures
            r.message@ == message@,
            r.exit_code == exit_code,
            r.context is None,
    {
        ExitError { message: String::from_str(message), exit_code, context: None }
    }

    /// The same output with its context replaced by `context`.
    pub fn with_context(self, context: &str) -> (r: ExitError)
        ensures
            r.message == self.message,
            r.exit_code == self.exit_code,
            r.context is Some,
            r.context->Some_0@ == context@,
    {
        ExitError { context: Some(String::from_str(context)), ..self }
    }
}

/// A domain error of a program: the output it ends with and the cause it was
/// built from, if any.
#[derive(Debug)]
pub struct DomainError {
    pub output: ExitError,
    pub source: Option<Cause>,
}

impl Domain for DomainError {
    open spec fn context_of(&self) -> Option<Seq<char>> {
        match self.output.context {
            Some(c) => Some(c@),
            None => None,
        }
    }

    open spec fn cause_of(&self) -> Option<Cause> {
        self.source
    }

    fn with_context(self, context: &str) -> (r: Self) {
        DomainError { output: self.output.with_context(context), source: self.source }
    }

    fn context(&self) -> (r: Option<&str>) {
        match &self.output.context {
            Some(c) => Some(c.as_str()),
            None => None,
        }
    }

    fn source(&self) -> (r: Option<&Cause>) {
        self.source.as_ref()
    }

    fn render(&self) -> (r: String)
        ensures
            r@ == self.output.message@,
    {
        self.output.message.clone()
    }

    fn into_source(self) -> (r: Option<Cause>) {
        self.source
    }
}

impl From<ExitError> for Error<DomainError> {
    fn from(value: ExitError) -> (r: Self) {
        Error::Domain(Box::new(DomainError { output: value, source: None }))
    }
}

impl vstd::std_specs::convert::FromSpecImpl<ExitError> for Error<DomainError> {
    open spec fn obeys_from_spec() -> bool {
        true
    }

    open spec fn from_spec(v: ExitError) -> Self {
        Error::Domain(Box::new(DomainError { output: v, source: None }))
    }
}

impl From<DomainError> for Error<DomainError> {
    fn from(value: DomainError) -> (r: Self) {
        Error::Domain(Box::new(value))
    }
}

impl vstd::std_specs::convert::FromSpecImpl<DomainError> for Error<DomainError> {
    open spec fn obeys_from_spec() -> bool {
        true
    }

    open spec fn from_spec(v: DomainError) -> Self {
        Error::Domain(Box::new(v))
    }
}

} // verus!
