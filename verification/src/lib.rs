//! A POSIX-style `getrandom` translation layer for a platform whose only
//! entropy source is a privileged system service.
//!
//! The service speaks its own result-code protocol, while callers expect the
//! POSIX calling convention: a byte count on success, `-1` plus an errno
//! value on failure. This crate holds the verified core of that translation:
//! clamping the requested length according to the caller's flags
//! ([`policy`]), and mapping every outcome of the two service calls (opening
//! a session, then generating bytes) onto the POSIX error model
//! ([`translate`]). The foreign calls themselves, and the single write to the
//! ambient errno cell, live at the unverified boundary outside this crate:
//! the boundary hands the library plain decoded values ([`status`]) and
//! carries its decisions out.

pub mod policy;
pub mod status;
pub mod translate;
