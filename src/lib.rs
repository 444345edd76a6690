//! Explicit error classification for fallible call chains.
//!
//! A failure is either a [`Domain`] error, expected and safe to present to an
//! external caller, or a [`Fault`], unexpected and kept with full diagnostic
//! detail. [`Error`] holds exactly one of the two. Context can be attached on
//! the way up (the last text wins), causes travel by ownership, and a caller
//! several layers above can reclassify an error by the kind of the cause it
//! currently holds.
//!
//! Verus has no trait objects and no downcasting, so a cause is a [`Cause`]:
//! a value that carries the name of its concrete kind, its renderings and its
//! own nested cause. Recovery by type becomes recovery by kind.
pub mod bug;
pub mod cause;
pub mod domain;
pub mod error;
pub mod exit;
pub mod fault;
pub mod option;
pub mod result;

pub use bug::{Bug, OptionBug, ResultBugWithContext};
pub use cause::{chain_debug, errors_chain_debug, Cause};
pub use domain::Domain;
pub use error::{Error, ErrorKind};
pub use exit::{DomainError, ExitError};
pub use fault::{Fault, FaultView, TraceStatus};
pub use option::OptionFault;
pub use result::{classified, ResultCause, ResultError, ResultFault, ResultFaultWithContext};
