//! Filesystem capacity arithmetic: from raw `statvfs`-style block counts to
//! kilobyte totals and a usage percentage.

use vstd::arithmetic::div_mod::{lemma_div_is_ordered, lemma_fundamental_div_mod};
use vstd::arithmetic::mul::lemma_mul_inequality;
use vstd::prelude::*;

verus! {

/// Raw capacity counters of one mounted filesystem, as a `statvfs`-style
/// query reports them: block counts in units of `f_frsize` bytes.
pub struct VfsStats {
    /// Total data blocks, in `f_frsize` units.
    pub f_blocks: u64,
    /// Free blocks, root-reserved ones included.
    pub f_bfree: u64,
    /// Free blocks available to unprivileged users.
    pub f_bavail: u64,
    /// Fragment size: bytes per block unit.
    pub f_frsize: u64,
}

/// Kilobytes covered by `blocks` units of `frsize` bytes each.
pub open spec fn kilobytes(blocks: nat, frsize: nat) -> nat {
    (blocks * frsize) / 1024
}

/// Usage percentage of the capacity open to unprivileged users:
/// `used * 100 / (used + available)`, rounded to the nearest integer
/// (halves round up), and 0 when the denominator is 0.
///
/// The rounded quotient is written as `(200 * used + d) / (2 * d)`,
/// which equals `floor(used * 100 / d + 1/2)` for `d = used + available`.
pub open spec fn usage_percent(used: nat, available: nat) -> nat {
    if used + available == 0 {
        0
    } else {
        (200 * used + (used + available)) / (2 * (used + available))
    }
}

/// The `(used, available, total, use_pc)` kilobyte tuple derived from one
/// capacity query: `total` and `available` scale the block counts to
/// kilobytes, `used = total - free`, and `use_pc` is `usage_percent`.
/// A failed query (`None`) yields the fail-safe `(0, 0, 0, 100)`, so that
/// a collection error presents as "full", never as "empty and healthy".
pub open spec fn spec_fs_usage(stats: Option<VfsStats>) -> (nat, nat, nat, nat) {
    match stats {
        Some(st) => {
            let total = kilobytes(st.f_blocks as nat, st.f_frsize as nat);
            let free = kilobytes(st.f_bfree as nat, st.f_frsize as nat);
            let available = kilobytes(st.f_bavail as nat, st.f_frsize as nat);
            let used = (total - free) as nat;
            (used, available, total, usage_percent(used, available))
        },
        None => (0nat, 0nat, 0nat, 100nat),
    }
}

/// Derive `(used, available, total, use_pc)` in kilobytes from one
/// capacity query, per `spec_fs_usage`.
///
/// The preconditions are exactly what keeps the 64-bit arithmetic of the
/// conversion in range: both byte totals fit in a `u64`, and no more
/// blocks are free than exist.
pub fn fs_usage(stats: Option<VfsStats>) -> (r: (u64, u64, u64, u32))
    requires
        stats matches Some(st) ==> {
            &&& st.f_blocks * st.f_frsize <= u64::MAX
            &&& st.f_bavail * st.f_frsize <= u64::MAX
            &&& st.f_bfree <= st.f_blocks
        },
    ensures
        (r.0 as nat, r.1 as nat, r.2 as nat, r.3 as nat) == spec_fs_usage(stats),
        r.3 <= 100,
{
    match stats {
        Some(st) => {
            proof {
                lemma_mul_inequality(st.f_bfree as int, st.f_blocks as int, st.f_frsize as int);
                lemma_div_is_ordered(
                    st.f_bfree as int * st.f_frsize as int,
                    st.f_blocks as int * st.f_frsize as int,
                    1024,
                );
                lemma_div_is_ordered(st.f_blocks as int * st.f_frsize as int, u64::MAX as int, 1024);
                lemma_div_is_ordered(st.f_bavail as int * st.f_frsize as int, u64::MAX as int, 1024);
                assert(u64::MAX as int / 1024 == 18014398509481983);
            }
            let total: u64 = st.f_blocks * st.f_frsize / 1024;
            let free: u64 = st.f_bfree * st.f_frsize / 1024;
            let available: u64 = st.f_bavail * st.f_frsize / 1024;
            let used: u64 = total - free;
            let denom: u64 = used + available;
            let pct: u64 = if denom == 0 {
                0
            } else {
                let q: u64 = (200 * used + denom) / (2 * denom);
                proof {
                    lemma_pct_at_most_100(used as nat, denom as nat);
                }
                q
            };
            (used, available, total, pct as u32)
        },
        None => (0, 0, 0, 100),
    }
}

/// The rounded percentage never exceeds 100 when `used <= denom`.
proof fn lemma_pct_at_most_100(used: nat, denom: nat)
    requires
        1 <= denom,
        used <= denom,
    ensures
        (200 * used + denom) / (2 * denom) <= 100,
{
    assert(200 * used + denom <= 201 * denom) by (nonlinear_arith)
        requires
            used <= denom,
    ;
    lemma_div_is_ordered(200 * used as int + denom as int, 201 * denom as int, 2 * denom as int);
    assert(201 * denom == 100 * (2 * denom) + denom) by (nonlinear_arith);
    lemma_fundamental_div_mod(201 * denom as int, 2 * denom as int);
    assert((201 * denom) / (2 * denom) == 100) by (nonlinear_arith)
        requires
            1 <= denom,
    ;
}

} // verus!
