//! Reference computations the engine judges a compiled artifact against: the
//! Euclidean distance between grid points, rounded to hundredths, and the
//! chlorine dose for the water-purification mission.

use vstd::prelude::*;

use crate::fixed::centi_seq;
use crate::fixed::format_centi;

verus! {

/// Squared Euclidean distance between two grid points.
pub open spec fn dist_sq(x1: int, y1: int, x2: int, y2: int) -> int {
    (x2 - x1) * (x2 - x1) + (y2 - y1) * (y2 - y1)
}

/// `r` is the square root of `d` rounded to the nearest integer, rounding
/// halves up: `2 * sqrt(d)` lies in `[2r - 1, 2r + 1)`.
pub open spec fn is_round_sqrt(d: int, r: int) -> bool {
    &&& 0 <= r
    &&& 4 * d < (2 * r + 1) * (2 * r + 1)
    &&& (r == 0 || (2 * r - 1) * (2 * r - 1) <= 4 * d)
}

/// The square root of `d`, in hundredths, rounded to the nearest hundredth.
pub open spec fn round_sqrt_centi(d: int) -> int {
    choose|r: int| #[trigger] is_round_sqrt(10000 * d, r)
}

/// At most one integer is the rounded square root of `d`.
pub proof fn lemma_round_sqrt_unique(d: int, r1: int, r2: int)
    requires
        is_round_sqrt(d, r1),
        is_round_sqrt(d, r2),
    ensures
        r1 == r2,
{
    if r1 < r2 {
        assert((2 * r1 + 1) * (2 * r1 + 1) <= (2 * r2 - 1) * (2 * r2 - 1)) by (nonlinear_arith)
            requires
                0 <= r1 < r2,
        ;
    }
    if r2 < r1 {
        assert((2 * r2 + 1) * (2 * r2 + 1) <= (2 * r1 - 1) * (2 * r1 - 1)) by (nonlinear_arith)
            requires
                0 <= r2 < r1,
        ;
    }
}

/// The integer square root, rounded down.
fn isqrt(n: u128) -> (r: u128)
    requires
        n < 0x1000000000000000000000000,
    ensures
        r * r <= n,
        n < (r + 1) * (r + 1),
        r < 0x1000000000000,
{
    let mut lo: u128 = 0;
    let mut hi: u128 = 0x1000000000000;
    proof {
        assert(0x1000000000000u128 * 0x1000000000000u128 == 0x1000000000000000000000000u128);
    }
    while lo + 1 < hi
        invariant
            lo < hi <= 0x1000000000000,
            lo * lo <= n,
            n < hi * hi,
            n < 0x1000000000000000000000000,
        decreases hi - lo,
    {
        let mid = lo + (hi - lo) / 2;
        proof {
            assert(lo < mid < hi);
            assert(mid * mid < 0x1000000000000000000000000u128) by (nonlinear_arith)
                requires
                    mid < 0x1000000000000u128,
            ;
        }
        if mid * mid <= n {
            lo = mid;
        } else {
            hi = mid;
        }
    }
    lo
}

/// The distance between `(x1, y1)` and `(x2, y2)` in hundredths of a cell,
/// rounded to the nearest hundredth: the value the two-decimal display of
/// `sqrt((x2 - x1)^2 + (y2 - y1)^2)` shows.
pub fn distance_centi(x1: i32, y1: i32, x2: i32, y2: i32) -> (r: u64)
    ensures
        r as int == round_sqrt_centi(dist_sq(x1 as int, y1 as int, x2 as int, y2 as int)),
        is_round_sqrt(10000 * dist_sq(x1 as int, y1 as int, x2 as int, y2 as int), r as int),
{
    let dx: i64 = x2 as i64 - x1 as i64;
    let dy: i64 = y2 as i64 - y1 as i64;
    proof {
        let dxi = dx as i128;
        let dyi = dy as i128;
        assert(0 <= dxi * dxi <= 4294967295i128 * 4294967295i128) by (nonlinear_arith)
            requires
                -4294967295 <= dxi <= 4294967295,
        ;
        assert(0 <= dyi * dyi <= 4294967295i128 * 4294967295i128) by (nonlinear_arith)
            requires
                -4294967295 <= dyi <= 4294967295,
        ;
    }
    let dx2: i128 = dx as i128 * dx as i128;
    let dy2: i128 = dy as i128 * dy as i128;
    let d: u128 = (dx2 + dy2) as u128;
    let four_d: u128 = 40000 * d;
    let s = isqrt(four_d);
    let r_wide: u128 = (s + 1) / 2;
    let r = r_wide as u64;
    proof {
        let di = dist_sq(x1 as int, y1 as int, x2 as int, y2 as int);
        assert(d == di);
        assert(four_d == 4 * (10000 * di));
        let si = s as int;
        let ri = r as int;
        assert(si * si <= 4 * (10000 * di) < (si + 1) * (si + 1));
        if si % 2 == 0 {
            let m = si / 2;
            assert(si == 2 * m);
            assert(ri == m);
            if ri >= 1 {
                assert((2 * ri - 1) * (2 * ri - 1) <= si * si) by (nonlinear_arith)
                    requires
                        si == 2 * ri && ri >= 1,
                ;
            }
            assert(is_round_sqrt(10000 * di, ri));
        } else {
            let m = (si - 1) / 2;
            assert(si == 2 * m + 1);
            assert(ri == m + 1);
            assert((si + 1) * (si + 1) <= (2 * ri + 1) * (2 * ri + 1)) by (nonlinear_arith)
                requires
                    si + 1 == 2 * ri && si >= 0,
            ;
            assert(is_round_sqrt(10000 * di, ri));
        }
        assert(is_round_sqrt(10000 * di, round_sqrt_centi(di))) by {
            assert(exists|rr: int| #[trigger] is_round_sqrt(10000 * di, rr));
        }
        lemma_round_sqrt_unique(10000 * di, ri, round_sqrt_centi(di));
    }
    r
}

/// The two-decimal display of the distance between two grid points: the
/// reference a correct artifact's output must match.
pub fn expected_distance_reading(x1: i32, y1: i32, x2: i32, y2: i32) -> (s: String)
    ensures
        s@ == centi_seq(
            round_sqrt_centi(dist_sq(x1 as int, y1 as int, x2 as int, y2 as int)) as nat,
        ),
{
    format_centi(distance_centi(x1, y1, x2, y2))
}

/// The reference chlorine dose in hundredths of a mg/L: a tenth of the
/// turbidity, raised by 2 mg/L for acidic water, lowered by 1 mg/L for basic
/// water, and never below zero.
pub open spec fn chlorine_centi_spec(t: int, p: int) -> int {
    let base = t / 10 + if p < 700 {
        200int
    } else if p > 700 {
        -100int
    } else {
        0int
    };
    if base < 0 {
        0
    } else {
        base
    }
}

/// Computes the reference chlorine dose from the sensor readings, both in
/// hundredths (turbidity in hundredths of an NTU, pH in hundredths).
pub fn calculate_correct_chlorine(turbidity_centi: u64, ph_centi: u64) -> (r: u64)
    ensures
        r as int == chlorine_centi_spec(turbidity_centi as int, ph_centi as int),
{
    let base = turbidity_centi / 10;
    if ph_centi < 700 {
        base + 200
    } else if ph_centi > 700 {
        if base >= 100 {
            base - 100
        } else {
            0
        }
    } else {
        base
    }
}

/// Law: the reference chlorine dose is never negative, whatever the
/// readings; the final clamp holds whether or not the pH adjustment pulled
/// the base dose below zero.
pub proof fn lemma_chlorine_never_negative(t: int, p: int)
    requires
        t >= 0,
    ensures
        chlorine_centi_spec(t, p) >= 0,
{
}

/// Law: the sanity probe's fixed coordinates, from the origin to (3, 4),
/// give a reference distance of exactly five cells, which renders as "5.00".
pub proof fn lemma_sanity_distance()
    ensures
        round_sqrt_centi(dist_sq(0, 0, 3, 4)) == 500,
        centi_seq(500nat) == "5.00"@,
{
    assert(dist_sq(0, 0, 3, 4) == 25);
    assert(4 * 250000 < (2 * 500int + 1) * (2 * 500int + 1) && (2 * 500int - 1) * (2 * 500int
        - 1) <= 4 * 250000) by (nonlinear_arith);
    assert(is_round_sqrt(250000, 500));
    assert(is_round_sqrt(250000, round_sqrt_centi(25))) by {
        assert(exists|rr: int| #[trigger] is_round_sqrt(250000, rr));
    }
    lemma_round_sqrt_unique(250000, 500, round_sqrt_centi(25));
    reveal_strlit("5.00");
    assert(crate::text::dec_seq(5nat) =~= seq!['5']);
    assert(centi_seq(500nat) =~= "5.00"@);
}

} // verus!
