//! Plain models of the values exchanged with the unverified boundary: the
//! decoded form of a foreign service result code, and the POSIX-style error
//! codes the translation can report.
//!
//! A service result code is opaque to this library; the foreign protocol
//! fixes its decomposition into a coarse *summary* and a fine-grained
//! *description*. The boundary performs that read-only decomposition and
//! hands the library a [`ServiceStatus`] value; the library never
//! reimplements the encoding.

use vstd::prelude::*;

verus! {

/// Coarse failure category decoded from a service result code.
///
/// The foreign protocol defines many more categories; the translation only
/// distinguishes the ones that map to distinct POSIX error codes and folds
/// every other category into `Other`.
#[derive(Clone, Copy, Debug, PartialEq, Eq, Structural)]
pub enum Summary {
    /// The call would have to wait: a request queue or handle table is
    /// saturated.
    WouldBlock,
    /// The service rejected an argument.
    InvalidArg,
    /// The service rejected an argument (the protocol's second
    /// invalid-argument category).
    WrongArg,
    /// Any other failure category.
    Other,
}

/// Fine-grained failure reason decoded from a service result code. It is
/// consulted only under an invalid-argument summary.
#[derive(Clone, Copy, Debug, PartialEq, Eq, Structural)]
pub enum Description {
    /// The handle passed to the call was itself invalid.
    InvalidHandle,
    /// Any other reason.
    Other,
}

/// The outcome of one service call, as decoded from its result code by the
/// boundary.
#[derive(Clone, Copy, Debug, PartialEq, Eq, Structural)]
pub enum ServiceStatus {
    /// The result code signals success.
    Succeeded,
    /// The result code signals failure, with its two-level decomposition.
    Failed { summary: Summary, description: Description },
}

/// The POSIX-style error codes this translation can report. The boundary
/// writes the corresponding platform value into the ambient errno cell.
#[derive(Clone, Copy, Debug, PartialEq, Eq, Structural)]
pub enum Errno {
    /// POSIX `EAGAIN`: a transient condition, the caller may retry.
    Again,
    /// POSIX `EINVAL`: an argument was rejected; not retryable without
    /// changing the inputs.
    Inval,
    /// The implementation-reserved sentinel, a negative value outside the
    /// standard POSIX range, for service failures that no POSIX code matches
    /// and for internal inconsistencies.
    Reserved,
}

} // verus!
