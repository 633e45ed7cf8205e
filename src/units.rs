//! Human-readable byte counts: SI (base 1000) and binary (base 1024) units.
//!
//! A count is divided by the base, discarding the remainder, while it is at
//! least the base and a larger unit is left; the result is the integer that
//! remains followed by its unit. Nothing after the point is kept.

use vstd::prelude::*;
use crate::text::{decimal, decimal_string};
use crate::types::{DiskInfo, MemInfo};

verus! {

/// The index of the largest unit in either table.
pub const LAST_UNIT: u64 = 8;

/// The base of the unit system: 1000 for SI, 1024 for binary.
pub open spec fn unit_base(si: bool) -> nat {
    if si {
        1000
    } else {
        1024
    }
}

/// `b` raised to the `e`-th power.
pub open spec fn power(b: nat, e: nat) -> nat
    decreases e,
{
    if e == 0 {
        1
    } else {
        power(b, (e - 1) as nat) * b
    }
}

/// The unit index reached from index `k` with `n` left: one more division
/// while `n` is at least `base` and a larger unit exists.
pub open spec fn steps_from(n: nat, base: nat, k: nat) -> nat
    recommends
        base >= 2,
    decreases LAST_UNIT - k,
{
    if k < LAST_UNIT && n >= base && base >= 2 {
        steps_from(n / base, base, k + 1)
    } else {
        k
    }
}

/// The index of the unit in which `n` bytes are shown.
pub open spec fn unit_index(n: nat, si: bool) -> nat {
    steps_from(n, unit_base(si), 0)
}

/// The number shown for `n` bytes: `n` divided by the base once per unit step.
pub open spec fn scaled_value(n: nat, si: bool) -> nat {
    n / power(unit_base(si), unit_index(n, si))
}

/// The suffix of unit `k`, with its leading space.
pub open spec fn unit_suffix(si: bool, k: nat) -> Seq<char> {
    if si {
        if k == 0 {
            " B"@
        } else if k == 1 {
            " kB"@
        } else if k == 2 {
            " MB"@
        } else if k == 3 {
            " GB"@
        } else if k == 4 {
            " TB"@
        } else if k == 5 {
            " PB"@
        } else if k == 6 {
            " EB"@
        } else if k == 7 {
            " ZB"@
        } else {
            " YB"@
        }
    } else {
        if k == 0 {
            " B"@
        } else if k == 1 {
            " KiB"@
        } else if k == 2 {
            " MiB"@
        } else if k == 3 {
            " GiB"@
        } else if k == 4 {
            " TiB"@
        } else if k == 5 {
            " PiB"@
        } else if k == 6 {
            " EiB"@
        } else if k == 7 {
            " ZiB"@
        } else {
            " YiB"@
        }
    }
}

/// The text for `n` bytes: the scaled number followed by its unit.
pub open spec fn readable(n: nat, si: bool) -> Seq<char> {
    decimal(scaled_value(n, si)) + unit_suffix(si, unit_index(n, si))
}

fn suffix(si: bool, k: u64) -> (r: &'static str)
    ensures
        r@ == unit_suffix(si, k as nat),
{
    if si {
        if k == 0 {
            " B"
        } else if k == 1 {
            " kB"
        } else if k == 2 {
            " MB"
        } else if k == 3 {
            " GB"
        } else if k == 4 {
            " TB"
        } else if k == 5 {
            " PB"
        } else if k == 6 {
            " EB"
        } else if k == 7 {
            " ZB"
        } else {
            " YB"
        }
    } else {
        if k == 0 {
            " B"
        } else if k == 1 {
            " KiB"
        } else if k == 2 {
            " MiB"
        } else if k == 3 {
            " GiB"
        } else if k == 4 {
            " TiB"
        } else if k == 5 {
            " PiB"
        } else if k == 6 {
            " EiB"
        } else if k == 7 {
            " ZiB"
        } else {
            " YiB"
        }
    }
}

proof fn lemma_power_positive(b: nat, e: nat)
    requires
        b >= 1,
    ensures
        power(b, e) >= 1,
    decreases e,
{
    if e > 0 {
        lemma_power_positive(b, (e - 1) as nat);
        assert(power(b, (e - 1) as nat) * b >= 1) by (nonlinear_arith)
            requires
                power(b, (e - 1) as nat) >= 1,
                b >= 1,
        ;
    }
}

proof fn lemma_quotient_step(n: nat, b: nat, j: nat)
    requires
        b >= 2,
    ensures
        n / power(b, j + 1) == (n / power(b, j)) / b,
{
    lemma_power_positive(b, j);
    assert(power(b, j + 1) == power(b, j) * b);
    vstd::arithmetic::div_mod::lemma_div_denominator(n as int, power(b, j) as int, b as int);
}

proof fn lemma_steps_stop(q: nat, b: nat, j: nat)
    requires
        b >= 2,
        !(j < LAST_UNIT && q >= b),
    ensures
        steps_from(q, b, j) == j,
{
}

proof fn lemma_steps(n: nat, b: nat, j: nat)
    requires
        b >= 2,
        j <= LAST_UNIT,
    ensures
        j <= steps_from(n / power(b, j), b, j) <= LAST_UNIT,
        steps_from(n / power(b, j), b, j) == LAST_UNIT || n / power(b, steps_from(
            n / power(b, j),
            b,
            j,
        )) < b,
        forall|i: nat|
            j <= i < steps_from(n / power(b, j), b, j) ==> #[trigger] (n / power(b, i)) >= b,
    decreases LAST_UNIT - j,
{
    if j < LAST_UNIT && n / power(b, j) >= b {
        lemma_quotient_step(n, b, j);
        lemma_steps(n, b, j + 1);
        assert(steps_from(n / power(b, j), b, j) == steps_from(n / power(b, j + 1), b, j + 1));
    } else {
        lemma_steps_stop(n / power(b, j), b, j);
    }
}

proof fn lemma_quotient_stays_zero(n: nat, b: nat, j: nat, i: nat)
    requires
        b >= 2,
        j <= i,
        n / power(b, j) == 0,
    ensures
        n / power(b, i) == 0,
    decreases i - j,
{
    if j < i {
        lemma_quotient_step(n, b, j);
        lemma_quotient_stays_zero(n, b, j + 1, i);
    }
}

/// Whether unit `k` suits `n` bytes: it is in the table, the quotient
/// `n / base^k` is below the base unless `k` is the last unit, and it is at
/// least one unless `k` is the first unit.
pub open spec fn fits_unit(n: nat, si: bool, k: nat) -> bool {
    let q = n / power(unit_base(si), k);
    &&& k <= LAST_UNIT
    &&& (k == LAST_UNIT || q < unit_base(si))
    &&& (k == 0 || q >= 1)
}

/// The unit in which `n` bytes are shown is the one unit of the table that
/// suits them: its quotient is at least one and below the base (or it is
/// the last unit, or the count is below one unit); every other unit of the
/// table fails one of these conditions.
pub proof fn lemma_unit_index_unique(n: nat, si: bool, k: nat)
    ensures
        fits_unit(n, si, unit_index(n, si)),
        fits_unit(n, si, k) ==> k == unit_index(n, si),
{
    let b = unit_base(si);
    assert(power(b, 0) == 1);
    assert(n / 1 == n);
    lemma_steps(n, b, 0);
    let u = unit_index(n, si);
    if u > 0 {
        let p = (u - 1) as nat;
        assert(n / power(b, p) >= b);
        lemma_quotient_step(n, b, p);
        assert(p + 1 == u);
    }
    if fits_unit(n, si, k) {
        if k < u {
            assert(n / power(b, k) >= b);
        } else if k > u {
            lemma_quotient_step(n, b, u);
            lemma_quotient_stays_zero(n, b, u + 1, k);
        }
    }
}

/// Renders `size` bytes in SI units (`si`) or binary units: "0 B", "1 kB",
/// "1 KiB", "999 MB". The number is truncated, never rounded.
pub fn readable_bytes(size: u64, si: bool) -> (r: String)
    ensures
        r@ == readable(size as nat, si),
{
    let unit: u64 = if si {
        1000
    } else {
        1024
    };
    let mut size_cpy: u64 = size;
    let mut count: u64 = 0;
    assert(power(unit as nat, 0) == 1);
    while size_cpy >= unit && count < LAST_UNIT
        invariant
            unit as nat == unit_base(si),
            count <= LAST_UNIT,
            size_cpy as nat == size as nat / power(unit as nat, count as nat),
            steps_from(size_cpy as nat, unit as nat, count as nat) == unit_index(size as nat, si),
        decreases LAST_UNIT - count,
    {
        proof {
            lemma_power_positive(unit as nat, count as nat);
            vstd::arithmetic::div_mod::lemma_div_denominator(
                size as int,
                power(unit as nat, count as nat) as int,
                unit as int,
            );
        }
        count = count + 1;
        size_cpy = size_cpy / unit;
    }
    let mut r = decimal_string(size_cpy);
    r.append(suffix(si, count));
    r
}

/// The text shown for an optional byte count: blank where it is unknown.
pub open spec fn shown(v: Option<u64>, si: bool) -> Seq<char> {
    match v {
        Some(n) => readable(n as nat, si),
        None => Seq::empty(),
    }
}

fn shown_string(v: Option<u64>, si: bool) -> (r: String)
    ensures
        r@ == shown(v, si),
{
    match v {
        Some(n) => readable_bytes(n, si),
        None => String::new(),
    }
}

/// Whether `r` shows `total`, `free` and `in_use`, in that order.
pub open spec fn shows_three(
    r: Seq<String>,
    total: Option<u64>,
    free: Option<u64>,
    in_use: Option<u64>,
    si: bool,
) -> bool {
    &&& r.len() == 3
    &&& r[0]@ == shown(total, si)
    &&& r[1]@ == shown(free, si)
    &&& r[2]@ == shown(in_use, si)
}

/// Shows disk space for people, in SI units: total, free and in use, in
/// that order, each blank where it is unknown.
pub fn get_readable_disk_info(info: &DiskInfo) -> (r: Vec<String>)
    ensures
        shows_three(r@, info.total, info.free, info.in_use, true),
{
    let mut readable_info: Vec<String> = Vec::new();
    readable_info.push(shown_string(info.total, true));
    readable_info.push(shown_string(info.free, true));
    readable_info.push(shown_string(info.in_use, true));
    readable_info
}

/// Shows memory for people, in binary units (KiB, MiB, ...), which suit
/// counts that the system keeps in KiB: total, free and in use, in that
/// order, each blank where it is unknown.
pub fn get_readable_mem_info(info: &MemInfo) -> (r: Vec<String>)
    ensures
        shows_three(r@, info.total, info.free, info.in_use, false),
{
    let mut readable_info: Vec<String> = Vec::new();
    readable_info.push(shown_string(info.total, false));
    readable_info.push(shown_string(info.free, false));
    readable_info.push(shown_string(info.in_use, false));
    readable_info
}

} // verus!
