//! The length-clamp policy: the maximum number of bytes one call may request
//! from the entropy service, selected by the caller's flags.
//!
//! The underlying service has a single entropy pool, so the "strict
//! randomness" distinction of the POSIX contract is emulated purely by
//! limiting the batch size for the strict case. The ceilings are policy
//! constants taken from the reference POSIX semantics and are preserved
//! exactly.

use vstd::math::min;
use vstd::prelude::*;

verus! {

/// The flag bit that requests strict, higher-quality randomness; it matches
/// the POSIX `GRND_RANDOM` bit. All other flag bits are ignored.
pub const STRICT_FLAG: u32 = 0x0002;

/// The largest batch one call may request when strict randomness is asked
/// for.
pub const STRICT_MAX: usize = 512;

/// The largest batch one call may request otherwise.
pub const DEFAULT_MAX: usize = 0x1FF_FFFF;

/// Whether the flags ask for strict randomness.
pub open spec fn strict_requested(flags: u32) -> bool {
    flags & STRICT_FLAG != 0
}

/// The policy ceiling for a request with the given flags.
pub open spec fn ceiling(flags: u32) -> usize {
    if strict_requested(flags) {
        STRICT_MAX
    } else {
        DEFAULT_MAX
    }
}

/// The effective length of a request: the requested length, reduced to the
/// policy ceiling where it exceeds it.
pub open spec fn clamped(len: usize, flags: u32) -> usize {
    if len <= ceiling(flags) {
        len
    } else {
        ceiling(flags)
    }
}

/// Clamp a requested length to the policy ceiling selected by `flags`: the
/// effective length is the minimum of the request and the ceiling. This step
/// is total; it has no error path.
pub fn clamp_len(len: usize, flags: u32) -> (r: usize)
    ensures
        r == clamped(len, flags),
        strict_requested(flags) ==> r == min(len as int, STRICT_MAX as int),
        !strict_requested(flags) ==> r == min(len as int, DEFAULT_MAX as int),
{
    let max: usize = if flags & STRICT_FLAG != 0 {
        STRICT_MAX
    } else {
        DEFAULT_MAX
    };
    if len <= max {
        len
    } else {
        max
    }
}

/// Only the strict bit of the flags influences the clamp: two flag words
/// that agree on that bit give every request the same effective length.
pub proof fn lemma_only_strict_bit_matters(len: usize, flags1: u32, flags2: u32)
    requires
        flags1 & STRICT_FLAG == flags2 & STRICT_FLAG,
    ensures
        clamped(len, flags1) == clamped(len, flags2),
{
}

/// The effective length never exceeds the larger ceiling, which lies far
/// below the maximum representable signed size: a successful return value of
/// the POSIX entry point is therefore always representable without overflow.
pub proof fn lemma_clamped_fits_in_signed(len: usize, flags: u32)
    ensures
        clamped(len, flags) <= DEFAULT_MAX,
        DEFAULT_MAX < i32::MAX,
{
}

} // verus!
