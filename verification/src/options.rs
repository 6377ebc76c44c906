//! Run options: which collection domain to drive, under which label and
//! at which interval, and the fault-tolerant reading of the interval text.

use vstd::prelude::*;
use vstd::string::{StrSliceExecFns, StringExecFns};

verus! {

/// The sampling interval, in whole seconds, used when none is given or
/// the given one cannot be read.
pub const DEFAULT_INTERVAL_SECS: u64 = 5;

/// The label used for host samples when the operator supplies none.
pub open spec fn default_id_text() -> Seq<char> {
    "localhost"@
}

/// One recognized collection domain.
pub enum Domain {
    Sys,
    Proc,
    Mount,
}

/// What one invocation runs: one domain with its settings, or nothing.
pub enum AppOptions {
    SysStats { id: String, interval_secs: u64 },
    FdStats { interval_secs: u64 },
    MountStats { interval_secs: u64 },
    Stop,
}

/// A decimal digit character.
pub open spec fn is_dec_digit(c: char) -> bool {
    48 <= c as u32 <= 57
}

/// The value of one decimal digit character.
pub open spec fn digit_val(c: char) -> nat {
    (c as u32 - 48) as nat
}

/// Non-empty and all digits.
pub open spec fn all_dec_digits(s: Seq<char>) -> bool {
    s.len() > 0 && forall|i: int| 0 <= i < s.len() ==> is_dec_digit(s[i])
}

/// The value of a digit string, most significant digit first.
pub open spec fn dec_val(s: Seq<char>) -> nat
    decreases s.len(),
{
    if s.len() == 0 {
        0
    } else {
        dec_val(s.drop_last()) * 10 + digit_val(s.last())
    }
}

/// The digits of an unsigned decimal literal: everything after one
/// optional leading `+`.
pub open spec fn unsigned_digits(s: Seq<char>) -> Seq<char> {
    if s.len() > 0 && s[0] == '+' {
        s.drop_first()
    } else {
        s
    }
}

/// Whether `s` is an unsigned 64-bit decimal literal: an optional leading
/// `+`, then one or more digits, with a value that fits in a `u64`.
pub open spec fn is_u64_decimal(s: Seq<char>) -> bool {
    all_dec_digits(unsigned_digits(s)) && dec_val(unsigned_digits(s)) <= u64::MAX
}

/// The value of an unsigned 64-bit decimal literal.
pub open spec fn u64_decimal_val(s: Seq<char>) -> nat {
    dec_val(unsigned_digits(s))
}

/// A digit string's value never shrinks when digits are appended.
proof fn lemma_dec_val_prefix_le(s: Seq<char>, i: int)
    requires
        0 <= i <= s.len(),
    ensures
        dec_val(s.take(i)) <= dec_val(s),
    decreases s.len() - i,
{
    if i == s.len() {
        assert(s.take(i) =~= s);
    } else {
        assert(s.take(i + 1).drop_last() =~= s.take(i));
        assert(dec_val(s.take(i + 1)) == dec_val(s.take(i)) * 10 + digit_val(s.take(i + 1).last()));
        assert(dec_val(s.take(i)) <= dec_val(s.take(i)) * 10) by (nonlinear_arith);
        lemma_dec_val_prefix_le(s, i + 1);
    }
}

fn dec_digit_val(c: char) -> (r: Option<u64>)
    ensures
        r matches Some(v) ==> is_dec_digit(c) && v as nat == digit_val(c) && v < 10,
        r is None ==> !is_dec_digit(c),
{
    let u = c as u32;
    if 48 <= u && u <= 57 {
        Some((u - 48) as u64)
    } else {
        None
    }
}

/// Read an unsigned 64-bit decimal literal, per `is_u64_decimal`:
/// `Some` of its value exactly on literals that fit, `None` otherwise.
pub fn parse_u64_dec(s: &str) -> (r: Option<u64>)
    ensures
        is_u64_decimal(s@) ==> r == Some(u64_decimal_val(s@) as u64),
        !is_u64_decimal(s@) ==> r is None,
{
    let n = s.unicode_len();
    let start: usize = if n > 0 && s.get_char(0) == '+' {
        1
    } else {
        0
    };
    let ghost d = unsigned_digits(s@);
    proof {
        assert(d =~= s@.subrange(start as int, n as int));
    }
    if start == n {
        return None;
    }
    let mut acc: u64 = 0;
    let mut j: usize = start;
    while j < n
        invariant
            start <= j <= n,
            n == s@.len(),
            start == 1 ==> s@.len() > 0 && s@[0] == '+',
            start == 0 ==> !(s@.len() > 0 && s@[0] == '+'),
            d == unsigned_digits(s@),
            d =~= s@.subrange(start as int, n as int),
            all_dec_digits(d.take(j - start)) || j == start,
            acc as nat == dec_val(d.take(j - start)),
        decreases n - j,
    {
        let c = s.get_char(j);
        proof {
            assert(d[j - start] == s@[j as int]);
            assert(d.take(j - start + 1).drop_last() =~= d.take(j - start));
        }
        match dec_digit_val(c) {
            None => {
                proof {
                    assert(!is_dec_digit(d[j - start]));
                    assert(!all_dec_digits(d));
                }
                return None;
            },
            Some(v) => {
                if acc > (u64::MAX - v) / 10 {
                    proof {
                        lemma_acc_overflow(acc as nat, v as nat);
                        assert(dec_val(d.take(j - start + 1)) > u64::MAX);
                        lemma_dec_val_prefix_le(d, j - start + 1);
                    }
                    return None;
                }
                proof {
                    lemma_acc_fits(acc as nat, v as nat);
                }
                acc = acc * 10 + v;
                proof {
                    assert(forall|k: int| 0 <= k < j - start + 1 ==> is_dec_digit(
                        #[trigger] d.take(j - start + 1)[k],
                    ));
                }
            },
        }
        j = j + 1;
    }
    proof {
        assert(d.take(n - start) =~= d);
    }
    Some(acc)
}

/// If the accumulated value exceeds `(u64::MAX - v) / 10`, the next step
/// would exceed `u64::MAX`.
proof fn lemma_acc_overflow(acc: nat, v: nat)
    requires
        v <= 9,
        acc > (u64::MAX - v) / 10,
    ensures
        acc * 10 + v > u64::MAX,
{
    let m = (u64::MAX - v) as nat;
    assert(acc >= m / 10 + 1);
    assert((m / 10 + 1) * 10 == (m / 10) * 10 + 10) by (nonlinear_arith);
    assert((m / 10) * 10 + m % 10 == m) by (nonlinear_arith);
    assert(m % 10 < 10) by (nonlinear_arith);
    assert(acc * 10 >= (m / 10 + 1) * 10) by (nonlinear_arith)
        requires
            acc >= m / 10 + 1,
    ;
}

/// If the accumulated value is at most `(u64::MAX - v) / 10`, the next
/// step still fits in a `u64`.
proof fn lemma_acc_fits(acc: nat, v: nat)
    requires
        v <= 9,
        acc <= (u64::MAX - v) / 10,
    ensures
        acc * 10 + v <= u64::MAX,
{
    let m = (u64::MAX - v) as nat;
    assert(acc * 10 <= (m / 10) * 10) by (nonlinear_arith)
        requires
            acc <= m / 10,
    ;
    assert((m / 10) * 10 + m % 10 == m) by (nonlinear_arith);
}

/// The interval a tick loop runs at, given the optional interval text:
/// the text's value when it reads as an unsigned decimal, and the default
/// otherwise or when none was given.
pub open spec fn effective_interval_secs(o: Option<&str>) -> u64 {
    match o {
        Some(s) => if is_u64_decimal(s@) {
            u64_decimal_val(s@) as u64
        } else {
            DEFAULT_INTERVAL_SECS
        },
        None => DEFAULT_INTERVAL_SECS,
    }
}

/// Whether the interval text was given but unreadable, so that the
/// default was substituted and a warning is owed on the diagnostic stream.
pub open spec fn interval_is_invalid(o: Option<&str>) -> bool {
    match o {
        Some(s) => !is_u64_decimal(s@),
        None => false,
    }
}

/// Read the interval setting, per `effective_interval_secs`: an
/// unreadable text is replaced by the default, never an error, and the
/// second component reports that substitution so the caller can log a
/// warning.
pub fn parse_interval_secs(interval: Option<&str>) -> (r: (u64, bool))
    ensures
        r.0 == effective_interval_secs(interval),
        r.1 == interval_is_invalid(interval),
{
    match interval {
        Some(s) => match parse_u64_dec(s) {
            Some(n) => (n, false),
            None => (DEFAULT_INTERVAL_SECS, true),
        },
        None => (DEFAULT_INTERVAL_SECS, false),
    }
}

/// The host-sample label: the operator's, or the default.
pub open spec fn effective_id(id: Option<String>) -> Seq<char> {
    match id {
        Some(s) => s@,
        None => default_id_text(),
    }
}

/// Choose what this invocation runs. No recognized domain means `Stop`:
/// a logged notice and an immediate exit, not an error. The settings of
/// the chosen domain follow `effective_id` and `effective_interval_secs`;
/// the second component reports an unreadable interval text, per
/// `parse_interval_secs`.
pub fn select_options(domain: Option<Domain>, id: Option<String>, interval: Option<&str>) -> (r: (
    AppOptions,
    bool,
))
    ensures
        r.1 == (!(domain is None) && interval_is_invalid(interval)),
        match domain {
            Some(Domain::Sys) => r.0 matches AppOptions::SysStats { id: rid, interval_secs }
                && rid@ == effective_id(id) && interval_secs == effective_interval_secs(interval),
            Some(Domain::Proc) => r.0 matches AppOptions::FdStats { interval_secs }
                && interval_secs == effective_interval_secs(interval),
            Some(Domain::Mount) => r.0 matches AppOptions::MountStats { interval_secs }
                && interval_secs == effective_interval_secs(interval),
            None => r.0 is Stop,
        },
{
    match domain {
        Some(Domain::Sys) => {
            let (interval_secs, warned) = parse_interval_secs(interval);
            let rid = match id {
                Some(s) => s,
                None => String::from_str("localhost"),
            };
            (AppOptions::SysStats { id: rid, interval_secs }, warned)
        },
        Some(Domain::Proc) => {
            let (interval_secs, warned) = parse_interval_secs(interval);
            (AppOptions::FdStats { interval_secs }, warned)
        },
        Some(Domain::Mount) => {
            let (interval_secs, warned) = parse_interval_secs(interval);
            (AppOptions::MountStats { interval_secs }, warned)
        },
        None => (AppOptions::Stop, false),
    }
}

} // verus!
