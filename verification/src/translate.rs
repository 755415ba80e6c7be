//! Translation of the two service calls' outcomes onto the POSIX error
//! model, and the decisions that drive the call: what to do after the
//! session-open attempt, and what the call's result is once the generation
//! attempt has returned.
//!
//! Every failure is handled locally: decoded, translated and reported;
//! nothing is re-thrown. Either the full effective length is requested from
//! the service, or an error code is reported and nothing is.

use crate::policy::clamp_len;
use crate::policy::clamped;
use crate::status::Description;
use crate::status::Errno;
use crate::status::ServiceStatus;
use crate::status::Summary;
use vstd::prelude::*;

verus! {

/// The error code reported when opening the service session fails with the
/// given summary: a saturated queue or handle table is a transient capacity
/// condition, so the caller is told to try again; no POSIX code matches any
/// other session-open failure, so the reserved sentinel is used.
pub open spec fn session_errno(summary: Summary) -> Errno {
    match summary {
        Summary::WouldBlock => Errno::Again,
        _ => Errno::Reserved,
    }
}

/// The error code reported when byte generation fails with the given
/// summary and description. An invalid-argument failure that blames the
/// handle itself is an internal inconsistency — the handle was just freshly
/// created — and gets the reserved sentinel rather than a caller error.
pub open spec fn generation_errno(summary: Summary, description: Description) -> Errno {
    match summary {
        Summary::WouldBlock => Errno::Again,
        Summary::InvalidArg | Summary::WrongArg => match description {
            Description::InvalidHandle => Errno::Reserved,
            Description::Other => Errno::Inval,
        },
        Summary::Other => Errno::Reserved,
    }
}

/// What the call does after the session-open attempt.
#[derive(Clone, Copy, Debug, PartialEq, Eq, Structural)]
pub enum SessionStep {
    /// The session is open: request this many bytes from the service.
    Generate { len: usize },
    /// The session could not be opened: report this error code and return
    /// the failure sentinel.
    Fail { errno: Errno },
}

/// What follows the session-open attempt, given the request and the decoded
/// status of that attempt.
pub open spec fn after_session(len: usize, flags: u32, status: ServiceStatus) -> SessionStep {
    match status {
        ServiceStatus::Succeeded => SessionStep::Generate { len: clamped(len, flags) },
        ServiceStatus::Failed { summary, description: _ } => SessionStep::Fail {
            errno: session_errno(summary),
        },
    }
}

/// The call's result once the generation attempt has returned: on success,
/// exactly the length that was requested from the service; on failure, the
/// translated error code.
pub open spec fn after_generation(len: usize, status: ServiceStatus) -> Result<usize, Errno> {
    match status {
        ServiceStatus::Succeeded => Ok(len),
        ServiceStatus::Failed { summary, description } => Err(
            generation_errno(summary, description),
        ),
    }
}

/// Translate a failed session open into an error code.
pub fn session_error(summary: Summary) -> (e: Errno)
    ensures
        e == session_errno(summary),
        summary is WouldBlock ==> e is Again,
        !(summary is WouldBlock) ==> e is Reserved,
{
    match summary {
        Summary::WouldBlock => Errno::Again,
        _ => Errno::Reserved,
    }
}

/// Translate a failed generation call into an error code.
pub fn generation_error(summary: Summary, description: Description) -> (e: Errno)
    ensures
        e == generation_errno(summary, description),
        summary is WouldBlock ==> e is Again,
        (summary is InvalidArg || summary is WrongArg) && description is InvalidHandle ==> e
            is Reserved,
        (summary is InvalidArg || summary is WrongArg) && !(description is InvalidHandle) ==> e
            is Inval,
        summary is Other ==> e is Reserved,
{
    match summary {
        Summary::WouldBlock => Errno::Again,
        Summary::InvalidArg | Summary::WrongArg => match description {
            Description::InvalidHandle => Errno::Reserved,
            Description::Other => Errno::Inval,
        },
        Summary::Other => Errno::Reserved,
    }
}

/// Decide what follows the session-open attempt: on success, generate the
/// effective (clamped) number of bytes; on failure, report the translated
/// error code and stop.
pub fn open_session_step(len: usize, flags: u32, status: ServiceStatus) -> (r: SessionStep)
    ensures
        r == after_session(len, flags, status),
        status is Succeeded <==> r is Generate,
        status is Succeeded ==> r == (SessionStep::Generate { len: clamped(len, flags) }),
        status matches ServiceStatus::Failed { summary, .. } ==> r == (SessionStep::Fail {
            errno: session_errno(summary),
        }),
{
    match status {
        ServiceStatus::Succeeded => SessionStep::Generate { len: clamp_len(len, flags) },
        ServiceStatus::Failed { summary, description: _ } => SessionStep::Fail {
            errno: session_error(summary),
        },
    }
}

/// Decide the call's result once the generation attempt has returned: on
/// success exactly `len`, the length that was requested from the service; on
/// failure the translated error code.
pub fn generation_result(len: usize, status: ServiceStatus) -> (r: Result<usize, Errno>)
    ensures
        r == after_generation(len, status),
        status is Succeeded <==> r is Ok,
        status is Succeeded ==> r == Ok::<usize, Errno>(len),
        status matches ServiceStatus::Failed { summary, description } ==> r == Err::<
            usize,
            Errno,
        >(generation_errno(summary, description)),
{
    match status {
        ServiceStatus::Succeeded => Ok(len),
        ServiceStatus::Failed { summary, description } => Err(
            generation_error(summary, description),
        ),
    }
}

/// End to end: when both service calls succeed, the call's result is exactly
/// the effective (clamped) length of the request, and no error code is
/// reported on that path.
pub proof fn lemma_success_returns_clamped(len: usize, flags: u32)
    ensures
        after_session(len, flags, ServiceStatus::Succeeded) == (SessionStep::Generate {
            len: clamped(len, flags),
        }),
        after_generation(clamped(len, flags), ServiceStatus::Succeeded) == Ok::<usize, Errno>(
            clamped(len, flags),
        ),
{
}

/// End to end: whichever of the two service calls fails, the reported error
/// code is the translation of that call's own summary and description, never
/// a success value.
pub proof fn lemma_failure_reports_errno(
    len: usize,
    flags: u32,
    summary: Summary,
    description: Description,
)
    ensures
        after_session(len, flags, ServiceStatus::Failed { summary, description })
            == (SessionStep::Fail { errno: session_errno(summary) }),
        after_generation(len, ServiceStatus::Failed { summary, description }) == Err::<
            usize,
            Errno,
        >(generation_errno(summary, description)),
{
}

} // verus!
