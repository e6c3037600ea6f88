//! Timestamps in microseconds, from seconds and a decimal fraction.

use vstd::prelude::*;

verus! {

/// The largest scale whose divisor, a power of ten, an `i64` can hold.
pub const MAX_SCALE: u32 = 24;

/// Ten to the power of `n`.
pub open spec fn ten_to(n: nat) -> nat
    decreases n,
{
    if n == 0 {
        1
    } else {
        10 * ten_to((n - 1) as nat)
    }
}

/// The quotient of `a` and `b` rounded towards zero.
pub open spec fn truncated_quotient(a: int, b: int) -> int {
    if a >= 0 {
        a / b
    } else {
        -((-a) / b)
    }
}

/// The whole microseconds in `units` of ten to the power of `-scale` seconds.
pub open spec fn fraction_micros(scale: u32, units: int) -> int {
    if scale <= 6 {
        units * ten_to((6 - scale) as nat)
    } else {
        truncated_quotient(units, ten_to((scale - 6) as nat) as int)
    }
}

/// Whether an integer is in the range of `i64`.
pub open spec fn fits_i64(n: int) -> bool {
    i64::MIN <= n <= i64::MAX
}

/// The microseconds since the epoch of `seconds` and a fraction; `None` where the seconds
/// alone, or the sum, are out of range.
pub open spec fn timestamp(scale: u32, seconds: i64, units: i32) -> Option<i64> {
    let whole = seconds * 1_000_000;
    let total = whole + fraction_micros(scale, units as int);
    if fits_i64(whole) && fits_i64(total) {
        Some(total as i64)
    } else {
        None
    }
}

proof fn lemma_ten_to_bounds(n: nat)
    requires
        n <= 18,
    ensures
        1 <= ten_to(n) <= 1_000_000_000_000_000_000,
        n <= 6 ==> ten_to(n) <= 1_000_000,
{
    reveal_with_fuel(ten_to, 19);
}

/// Ten to the power of `n` as an `i64`.
fn power_of_ten(n: u32) -> (power: i64)
    requires
        n <= 18,
    ensures
        power == ten_to(n as nat),
{
    let mut power: i64 = 1;
    let mut k: u32 = 0;
    while k < n
        invariant
            k <= n <= 18,
            power == ten_to(k as nat),
        decreases n - k,
    {
        proof {
            lemma_ten_to_bounds((k + 1) as nat);
        }
        power = power * 10;
        k = k + 1;
    }
    power
}

/// Converts seconds and a fraction of the given scale to microseconds since the epoch.
pub fn timestamp_micros(scale: u32, seconds: i64, units: i32) -> (micros: Option<i64>)
    requires
        scale <= MAX_SCALE,
    ensures
        micros == timestamp(scale, seconds, units),
{
    let fr_units: i64 = units as i64;
    let frac_micros: i64;
    if scale <= 6 {
        let factor = power_of_ten(6 - scale);
        proof {
            lemma_ten_to_bounds((6 - scale) as nat);
            assert(fits_i64(fr_units * factor)) by (nonlinear_arith)
                requires
                    -2147483648 <= fr_units <= 2147483647,
                    1 <= factor <= 1_000_000,
            ;
        }
        match fr_units.checked_mul(factor) {
            Some(product) => {
                frac_micros = product;
            },
            None => {
                return None;
            },
        }
    } else {
        let divisor = power_of_ten(scale - 6);
        proof {
            lemma_ten_to_bounds((scale - 6) as nat);
        }
        frac_micros = fr_units / divisor;
    }
    match seconds.checked_mul(1_000_000) {
        Some(whole) => whole.checked_add(frac_micros),
        None => None,
    }
}

// ---------------------------------------------------------------------------
// Laws
// ---------------------------------------------------------------------------

proof fn lemma_ten_to_adds(a: nat, b: nat)
    ensures
        ten_to(a + b) == ten_to(a) * ten_to(b),
        ten_to(a) >= 1,
    decreases a,
{
    let right = ten_to(b);
    if a == 0 {
        assert(ten_to(a) * right == right) by (nonlinear_arith)
            requires
                ten_to(a) == 1,
        ;
    } else {
        let rest = ten_to((a - 1) as nat);
        lemma_ten_to_adds((a - 1) as nat, b);
        assert((a - 1) as nat + b == (a + b - 1) as nat);
        assert(10 * (rest * right) == (10 * rest) * right) by (nonlinear_arith);
    }
}

/// How far microseconds fall short of the instant that seconds and a fraction denote, in
/// parts of ten to the power of `-(scale + 6)` seconds.
pub open spec fn shortfall(scale: u32, seconds: i64, units: i32, micros: i64) -> int {
    (seconds * ten_to(scale as nat) + units) * 1_000_000 - micros * ten_to(scale as nat)
}

/// A fraction in microseconds or coarser is converted without loss.
pub proof fn law_coarse_fraction_is_exact(scale: u32, seconds: i64, units: i32)
    requires
        scale <= 6,
        timestamp(scale, seconds, units) is Some,
    ensures
        shortfall(scale, seconds, units, timestamp(scale, seconds, units)->0) == 0,
{
    let micros = timestamp(scale, seconds, units)->0;
    let up = ten_to((6 - scale) as nat);
    let down = ten_to(scale as nat);
    lemma_ten_to_adds((6 - scale) as nat, scale as nat);
    assert(ten_to(6) == 1_000_000) by {
        reveal_with_fuel(ten_to, 7);
    }
    assert((seconds * 1_000_000 + units * up) * down == (seconds * down + units) * 1_000_000)
        by (nonlinear_arith)
        requires
            up * down == 1_000_000,
    ;
}

/// A fraction finer than microseconds loses less than one microsecond, and is rounded
/// towards zero.
pub proof fn law_fine_fraction_is_truncated(scale: u32, seconds: i64, units: i32)
    requires
        scale > 6,
        timestamp(scale, seconds, units) is Some,
    ensures
        ({
            let lost = shortfall(scale, seconds, units, timestamp(scale, seconds, units)->0);
            &&& -ten_to(scale as nat) < lost < ten_to(scale as nat)
            &&& units >= 0 ==> lost >= 0
            &&& units <= 0 ==> lost <= 0
        }),
{
    let micros = timestamp(scale, seconds, units)->0;
    let lost = shortfall(scale, seconds, units, micros);
    let divisor = ten_to((scale - 6) as nat) as int;
    let part = ten_to(scale as nat) as int;
    lemma_ten_to_adds((scale - 6) as nat, 6);
    assert(ten_to(6) == 1_000_000) by {
        reveal_with_fuel(ten_to, 7);
    }
    let size = if units >= 0 {
        units as int
    } else {
        -units
    };
    let quotient = size / divisor;
    assert(0 <= size - quotient * divisor < divisor) by (nonlinear_arith)
        requires
            divisor >= 1,
            quotient == size / divisor,
    ;
    if units >= 0 {
        assert(lost == 1_000_000 * (size - quotient * divisor)) by (nonlinear_arith)
            requires
                lost == (seconds * part + size) * 1_000_000 - (seconds * 1_000_000 + quotient)
                    * part,
                part == divisor * 1_000_000,
        ;
    } else {
        assert(lost == -1_000_000 * (size - quotient * divisor)) by (nonlinear_arith)
            requires
                lost == (seconds * part - size) * 1_000_000 - (seconds * 1_000_000 - quotient)
                    * part,
                part == divisor * 1_000_000,
        ;
    }
}

/// A fraction of less than one second stays one in microseconds.
pub proof fn law_fraction_stays_below_one_second(scale: u32, units: int)
    requires
        0 <= units < ten_to(scale as nat),
    ensures
        0 <= fraction_micros(scale, units) < 1_000_000,
{
    assert(ten_to(6) == 1_000_000) by {
        reveal_with_fuel(ten_to, 7);
    }
    if scale <= 6 {
        let up = ten_to((6 - scale) as nat);
        let down = ten_to(scale as nat);
        lemma_ten_to_adds((6 - scale) as nat, scale as nat);
        assert(0 <= units * up < 1_000_000) by (nonlinear_arith)
            requires
                up * down == 1_000_000,
                up >= 1,
                0 <= units < down,
        ;
    } else {
        let divisor = ten_to((scale - 6) as nat) as int;
        lemma_ten_to_adds((scale - 6) as nat, 6);
        let quotient = units / divisor;
        assert(0 <= quotient < 1_000_000) by (nonlinear_arith)
            requires
                divisor >= 1,
                quotient == units / divisor,
                0 <= units < divisor * 1_000_000,
        ;
    }
}

/// Of two instants of one scale, the later has no smaller timestamp.
pub proof fn law_order_is_preserved(
    scale: u32,
    seconds: i64,
    units: i32,
    later_seconds: i64,
    later_units: i32,
)
    requires
        0 <= units < ten_to(scale as nat),
        0 <= later_units < ten_to(scale as nat),
        seconds < later_seconds || seconds == later_seconds && units <= later_units,
        timestamp(scale, seconds, units) is Some,
        timestamp(scale, later_seconds, later_units) is Some,
    ensures
        timestamp(scale, seconds, units)->0 <= timestamp(scale, later_seconds, later_units)->0,
{
    law_fraction_stays_below_one_second(scale, units as int);
    law_fraction_stays_below_one_second(scale, later_units as int);
    if seconds == later_seconds {
        if scale <= 6 {
            let up = ten_to((6 - scale) as nat);
            assert(units * up <= later_units * up) by (nonlinear_arith)
                requires
                    units <= later_units,
            ;
        } else {
            let divisor = ten_to((scale - 6) as nat) as int;
            lemma_ten_to_adds((scale - 6) as nat, 6);
            let early = units as int / divisor;
            let late = later_units as int / divisor;
            assert(early <= late) by (nonlinear_arith)
                requires
                    divisor >= 1,
                    early == units as int / divisor,
                    late == later_units as int / divisor,
                    units <= later_units,
            ;
        }
    }
}

/// The powers are those of ten.
proof fn lemma_ten_to_is_pow(n: nat)
    ensures
        ten_to(n) == vstd::arithmetic::power::pow(10, n),
    decreases n,
{
    reveal(vstd::arithmetic::power::pow);
    if n > 0 {
        lemma_ten_to_is_pow((n - 1) as nat);
    }
}

/// A timestamp is the seconds in microseconds and, added to them, the whole microseconds of
/// the fraction: those that its units make up exactly where a unit is a microsecond or more,
/// and else as many as fit in between zero and the units. It is there exactly where the
/// seconds in microseconds and the sum are both in the range of 64 bits.
pub proof fn law_timestamp_is_seconds_and_fraction(
    scale: u32,
    seconds: i64,
    units: i32,
    fraction: int,
)
    requires
        scale <= 6 ==> fraction == units * vstd::arithmetic::power::pow(10, (6 - scale) as nat),
        scale > 6 && units >= 0 ==> 0 <= units - fraction * vstd::arithmetic::power::pow(
            10,
            (scale - 6) as nat,
        ) < vstd::arithmetic::power::pow(10, (scale - 6) as nat),
        scale > 6 && units < 0 ==> 0 <= fraction * vstd::arithmetic::power::pow(
            10,
            (scale - 6) as nat,
        ) - units < vstd::arithmetic::power::pow(10, (scale - 6) as nat),
    ensures
        timestamp(scale, seconds, units) is Some <==> {
            &&& -0x8000_0000_0000_0000 <= seconds * 1_000_000 <= 0x7fff_ffff_ffff_ffff
            &&& -0x8000_0000_0000_0000 <= seconds * 1_000_000 + fraction
                <= 0x7fff_ffff_ffff_ffff
        },
        timestamp(scale, seconds, units) matches Some(micros) ==> micros == seconds * 1_000_000
            + fraction,
{
    if scale <= 6 {
        lemma_ten_to_is_pow((6 - scale) as nat);
    } else {
        let divisor = ten_to((scale - 6) as nat) as int;
        lemma_ten_to_is_pow((scale - 6) as nat);
        lemma_ten_to_adds((scale - 6) as nat, 0);
        if units >= 0 {
            assert(fraction == units as int / divisor) by (nonlinear_arith)
                requires
                    divisor >= 1,
                    0 <= units - fraction * divisor < divisor,
            ;
        } else {
            let size = -units;
            assert(-fraction == size / divisor) by (nonlinear_arith)
                requires
                    divisor >= 1,
                    size == -units,
                    0 <= fraction * divisor - units < divisor,
            ;
        }
    }
}

} // verus!
