//! The neutral instant that timestamps are reset to, in the two encodings the
//! platforms use.
use vstd::prelude::*;

verus! {

/// 2000-01-01 00:00:00 UTC, in seconds since the Unix epoch.
pub const NEUTRAL_UNIX_SECS: u64 = 946684800;

/// Seconds from 1601-01-01 (the FILETIME epoch) to 1970-01-01.
pub const FILETIME_EPOCH_OFFSET_SECS: u64 = 11644473600;

/// FILETIME ticks (100 ns) in a second.
pub const FILETIME_TICKS_PER_SEC: u64 = 10000000;

/// 2000-01-01 00:00:00 UTC as a FILETIME: 100-ns ticks since 1601-01-01.
pub const NEUTRAL_FILETIME: u64 = 125911584000000000;

/// The FILETIME of a Unix time, when it fits in 64 bits.
pub open spec fn filetime_of(unix_secs: nat) -> nat {
    (unix_secs + FILETIME_EPOCH_OFFSET_SECS as nat) * (FILETIME_TICKS_PER_SEC as nat)
}

/// The FILETIME of `unix_secs`, or `None` when it does not fit in 64 bits.
pub fn filetime_from_unix(unix_secs: u64) -> (r: Option<u64>)
    ensures
        filetime_of(unix_secs as nat) <= u64::MAX ==> r == Some(filetime_of(unix_secs as nat) as u64),
        filetime_of(unix_secs as nat) > u64::MAX ==> r is None,
{
    let limit: u64 = u64::MAX / FILETIME_TICKS_PER_SEC;
    if unix_secs > limit - FILETIME_EPOCH_OFFSET_SECS {
        assert(filetime_of(unix_secs as nat) > u64::MAX) by (nonlinear_arith)
            requires
                unix_secs > limit - FILETIME_EPOCH_OFFSET_SECS,
                limit == u64::MAX / FILETIME_TICKS_PER_SEC,
                filetime_of(unix_secs as nat) == (unix_secs + FILETIME_EPOCH_OFFSET_SECS)
                    * FILETIME_TICKS_PER_SEC,
        ;
        return None;
    }
    let secs = unix_secs + FILETIME_EPOCH_OFFSET_SECS;
    assert(secs * FILETIME_TICKS_PER_SEC <= u64::MAX) by (nonlinear_arith)
        requires
            secs <= limit,
            limit == u64::MAX / FILETIME_TICKS_PER_SEC,
    ;
    Some(secs * FILETIME_TICKS_PER_SEC)
}

/// The low and high 32-bit halves of a FILETIME.
pub fn filetime_parts(t: u64) -> (r: (u32, u32))
    ensures
        r.0 as nat + r.1 as nat * 4294967296 == t as nat,
{
    let low = t % 4294967296;
    let high = t / 4294967296;
    assert(low + high * 4294967296 == t) by (nonlinear_arith)
        requires
            low == t % 4294967296,
            high == t / 4294967296,
    ;
    assert(high < 4294967296) by (nonlinear_arith)
        requires
            high == t / 4294967296,
            t <= u64::MAX,
    ;
    (low as u32, high as u32)
}

/// The neutral FILETIME is the neutral Unix time in the other encoding.
pub proof fn lemma_neutral_instant_agrees()
    ensures
        NEUTRAL_FILETIME as nat == filetime_of(NEUTRAL_UNIX_SECS as nat),
{
}

} // verus!
