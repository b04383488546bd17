//! Per-second rates and their scaling to binary units.

use vstd::prelude::*;
use vstd::arithmetic::div_mod::lemma_fundamental_div_mod;
use vstd::arithmetic::div_mod::lemma_fundamental_div_mod_converse;
use crate::timing::Elapsed;
use crate::timing::NANOS_PER_SEC;

verus! {

/// The quotient `num / den` rounded to the nearest integer, a tie going up.
pub open spec fn rounded_quotient(num: nat, den: nat) -> nat
    recommends
        den > 0,
{
    (2 * num + den) / (2 * den)
}

/// Events per second when `count` events took `nanos` nanoseconds: the real
/// quotient of `count` by the elapsed seconds, rounded to the nearest integer.
pub open spec fn rate_per_second(count: nat, nanos: nat) -> nat
    recommends
        nanos > 0,
{
    rounded_quotient(count * 1_000_000_000, nanos)
}

/// The number of bytes in one unit of the given rank: 1024 to that power.
pub open spec fn unit_size(rank: nat) -> nat {
    if rank == 0 {
        1
    } else if rank == 1 {
        1024
    } else if rank == 2 {
        1_048_576
    } else if rank == 3 {
        1_073_741_824
    } else if rank == 4 {
        1_099_511_627_776
    } else {
        1_125_899_906_842_624
    }
}

/// The rank of the largest unit that is not above `bytes`; the largest rank
/// there is takes every value beyond it.
pub open spec fn unit_rank(bytes: nat) -> nat {
    if bytes < 1024 {
        0
    } else if bytes < 1_048_576 {
        1
    } else if bytes < 1_073_741_824 {
        2
    } else if bytes < 1_099_511_627_776 {
        3
    } else if bytes < 1_125_899_906_842_624 {
        4
    } else {
        5
    }
}

/// The suffix that names the unit of the given rank.
pub open spec fn unit_suffix(rank: nat) -> Seq<char> {
    if rank == 0 {
        ""@
    } else if rank == 1 {
        "ki"@
    } else if rank == 2 {
        "Mi"@
    } else if rank == 3 {
        "Gi"@
    } else if rank == 4 {
        "Ti"@
    } else {
        "Pi"@
    }
}

/// `bytes` counted in the largest unit that is not above it.
pub open spec fn scaled_bytes(bytes: nat) -> nat {
    bytes / unit_size(unit_rank(bytes))
}

/// The rate of `count` events over `elapsed`, rounded to the nearest integer.
pub fn rate(count: usize, elapsed: Elapsed) -> (r: u128)
    requires
        elapsed.nanos > 0,
    ensures
        r == rate_per_second(count as nat, elapsed.total_nanos()),
{
    let num: u128 = count as u128 * NANOS_PER_SEC;
    let den: u128 = elapsed.nanos;
    let quotient: u128 = num / den;
    let rest: u128 = num % den;
    let up: bool = rest >= den - rest;
    proof {
        let twice: int = 2 * den as int;
        let r: int = if up {
            quotient as int + 1
        } else {
            quotient as int
        };
        let left: int = if up {
            2 * rest as int - den as int
        } else {
            2 * rest as int + den as int
        };
        lemma_fundamental_div_mod(num as int, den as int);
        assert(2 * (den as int * quotient as int) == twice * quotient as int) by (nonlinear_arith)
            requires
                twice == 2 * den as int,
        ;
        assert(twice * (quotient as int + 1) == twice * quotient as int + twice)
            by (nonlinear_arith);
        assert(r * twice == twice * r) by (nonlinear_arith);
        assert(2 * num as int + den as int == r * twice + left);
        lemma_fundamental_div_mod_converse(2 * num as int + den as int, twice, r, left);
    }
    if up {
        quotient + 1
    } else {
        quotient
    }
}

/// Scales a byte count to the largest binary unit that is not above it:
/// divides by 1024 while the value is at least 1024 and a larger unit is
/// left, and names the unit reached.
pub fn bytes_to_human(bytes: u128) -> (r: (u128, &'static str))
    ensures
        r.0 == scaled_bytes(bytes as nat),
        r.1@ == unit_suffix(unit_rank(bytes as nat)),
{
    let mut scaled: u128 = bytes;
    let mut rank: usize = 0;
    while rank < 5 && scaled >= 1024
        invariant
            rank <= 5,
            scaled == bytes as nat / unit_size(rank as nat),
            rank > 0 ==> bytes >= unit_size(rank as nat),
        decreases 5 - rank,
    {
        scaled = scaled / 1024;
        rank = rank + 1;
    }
    let suffix: &'static str = if rank == 0 {
        ""
    } else if rank == 1 {
        "ki"
    } else if rank == 2 {
        "Mi"
    } else if rank == 3 {
        "Gi"
    } else if rank == 4 {
        "Ti"
    } else {
        "Pi"
    };
    (scaled, suffix)
}

/// The scaled value stays below 1024 except in the largest unit, and it is
/// the byte count divided by the unit, the remainder dropped: the unit
/// fits into the count `scaled` times and not once more.
pub proof fn law_scaled_bytes_bounds(bytes: nat)
    ensures
        unit_rank(bytes) <= 5,
        unit_size(unit_rank(bytes)) == vstd::arithmetic::power::pow(1024, unit_rank(bytes)),
        unit_rank(bytes) < 5 ==> scaled_bytes(bytes) < 1024,
        unit_rank(bytes) > 0 ==> scaled_bytes(bytes) >= 1,
        scaled_bytes(bytes) * unit_size(unit_rank(bytes)) <= bytes,
        bytes < (scaled_bytes(bytes) + 1) * unit_size(unit_rank(bytes)),
{
    let rank = unit_rank(bytes);
    let unit = unit_size(rank);
    lemma_fundamental_div_mod(bytes as int, unit as int);
    assert(unit as int * (bytes as int / unit as int) == scaled_bytes(bytes) * unit)
        by (nonlinear_arith)
        requires
            scaled_bytes(bytes) == bytes as int / unit as int,
    ;
    assert((scaled_bytes(bytes) + 1) * unit == scaled_bytes(bytes) * unit + unit)
        by (nonlinear_arith);
    assert(unit == vstd::arithmetic::power::pow(1024, rank)) by {
        reveal_with_fuel(vstd::arithmetic::power::pow, 6);
    }
}

/// The rate is the integer nearest to the real quotient of the count by
/// the elapsed seconds: it lies within half a unit of it, and a quotient
/// halfway between two integers goes to the larger.
pub proof fn law_rate_is_nearest(count: nat, nanos: nat)
    requires
        nanos > 0,
    ensures
        2 * nanos * rate_per_second(count, nanos) <= 2 * (count * 1_000_000_000) + nanos,
        2 * (count * 1_000_000_000) + nanos < 2 * nanos * (rate_per_second(count, nanos) + 1),
{
    let num: int = (2 * (count * 1_000_000_000) + nanos) as int;
    let den: int = (2 * nanos) as int;
    let r: int = rate_per_second(count, nanos) as int;
    lemma_fundamental_div_mod(num, den);
    assert(den * (r + 1) == den * r + den) by (nonlinear_arith);
}

} // verus!
