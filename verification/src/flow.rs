//! Bounded one-step partial-pressure equalization between two
//! containers, computed per gas species in a widened integer domain.

use vstd::prelude::*;
use vstd::math::min;
use crate::quantity::Volume;

verus! {

/// Integer division truncating toward zero, for a positive divisor.
pub open spec fn trunc_div(a: int, b: int) -> int {
    if a >= 0 {
        a / b
    } else {
        -((-a) / b)
    }
}

/// The net amount of one species moved from container A to container B
/// in one tick: the flow that would exactly equalize the two partial
/// pressures, truncated toward zero and clamped by the pipe's capacity
/// and by what each side holds. Negative means flow from B to A.
pub open spec fn spec_flow_amount(aa: int, va: int, ab: int, vb: int, max_flow: int) -> int {
    let denom = va + vb;
    if denom <= 0 {
        0
    } else {
        let equalize = trunc_div(aa * vb - ab * va, denom);
        let hi = min(aa, max_flow);
        let lo = -min(ab, max_flow);
        if equalize > hi {
            hi
        } else if equalize < lo {
            lo
        } else {
            equalize
        }
    }
}

/// For a positive divisor, truncating division never grows the
/// magnitude of the dividend, and keeps its sign.
pub proof fn lemma_trunc_div_bounds(a: int, b: int)
    requires
        b > 0,
    ensures
        a >= 0 ==> 0 <= trunc_div(a, b) <= a,
        a < 0 ==> a <= trunc_div(a, b) <= 0,
{
    if a >= 0 {
        crate::quantity::lemma_div_le_dividend(a, b);
    } else {
        crate::quantity::lemma_div_le_dividend(-a, b);
    }
}

/// Flow magnitudes are bounded by the pipe capacity and by what each
/// endpoint holds: the flow never exceeds `max_flow` in magnitude, never
/// draws more out of A than A holds, and never draws more out of B than
/// B holds, so neither endpoint goes negative.
pub proof fn lemma_flow_amount_bounds(aa: int, va: int, ab: int, vb: int, max_flow: int)
    requires
        aa >= 0,
        ab >= 0,
        max_flow >= 0,
    ensures
        -min(ab, max_flow) <= spec_flow_amount(aa, va, ab, vb, max_flow) <= min(aa, max_flow),
        aa - spec_flow_amount(aa, va, ab, vb, max_flow) >= 0,
        ab + spec_flow_amount(aa, va, ab, vb, max_flow) >= 0,
{
}

/// When the pipe's capacity is at least the one-step equalizing amount,
/// a single flow leaves the two endpoints' partial pressures for that
/// species equal up to the one unit lost to integer truncation.
pub proof fn lemma_flow_equalizes(aa: int, va: int, ab: int, vb: int, max_flow: int)
    requires
        aa >= 0,
        ab >= 0,
        va >= 1,
        vb >= 1,
        max_flow >= vstd::math::abs(trunc_div(aa * vb - ab * va, va + vb)),
    ensures
        ({
            let f = spec_flow_amount(aa, va, ab, vb, max_flow);
            let pressure_a = (aa - f) / va;
            let pressure_b = (ab + f) / vb;
            -1 <= pressure_a - pressure_b <= 1
        }),
{
    let d = va + vb;
    let num = aa * vb - ab * va;
    let q = trunc_div(num, d);

    // The exact equalizing amount never asks for more than either side
    // holds, so with enough capacity no clamp binds.
    assert(num <= aa * d && -num <= ab * d) by (nonlinear_arith)
        requires
            aa >= 0,
            ab >= 0,
            va >= 1,
            vb >= 1,
            d == va + vb,
            num == aa * vb - ab * va,
    ;
    if num >= 0 {
        vstd::arithmetic::div_mod::lemma_div_is_ordered(num, aa * d, d);
        vstd::arithmetic::div_mod::lemma_div_by_multiple(aa, d);
        vstd::arithmetic::div_mod::lemma_div_pos_is_pos(num, d);
        assert(0 <= q <= aa);
    } else {
        vstd::arithmetic::div_mod::lemma_div_is_ordered(-num, ab * d, d);
        vstd::arithmetic::div_mod::lemma_div_by_multiple(ab, d);
        vstd::arithmetic::div_mod::lemma_div_pos_is_pos(-num, d);
        assert(-ab <= q <= 0);
    }
    assert(-min(ab, max_flow) <= q <= min(aa, max_flow));
    let f = spec_flow_amount(aa, va, ab, vb, max_flow);
    assert(f == q);

    // The residue of the truncating division is below one denominator in
    // magnitude and sits on the dividend's side of zero.
    let s = num - q * d;
    if num >= 0 {
        vstd::arithmetic::div_mod::lemma_fundamental_div_mod(num, d);
        vstd::arithmetic::div_mod::lemma_mod_division_less_than_divisor(num, d);
        assert(0 <= s < d);
    } else {
        let negated_quotient = (-num) / d;
        let negated_residue = (-num) % d;
        vstd::arithmetic::div_mod::lemma_fundamental_div_mod(-num, d);
        vstd::arithmetic::div_mod::lemma_mod_division_less_than_divisor(-num, d);
        assert(s == -negated_residue) by (nonlinear_arith)
            requires
                s == num - q * d,
                q == -negated_quotient,
                -num == d * negated_quotient + negated_residue,
        ;
        assert(-d < s <= 0);
    }

    let rest_a = aa - q;
    let rest_b = ab + q;
    assert(rest_a >= 0 && rest_b >= 0);
    assert(rest_a * vb - rest_b * va == s) by (nonlinear_arith)
        requires
            rest_a == aa - q,
            rest_b == ab + q,
            s == num - q * d,
            d == va + vb,
            num == aa * vb - ab * va,
    ;

    let pressure_a = rest_a / va;
    let residue_a = rest_a % va;
    let pressure_b = rest_b / vb;
    let residue_b = rest_b % vb;
    vstd::arithmetic::div_mod::lemma_fundamental_div_mod(rest_a, va);
    vstd::arithmetic::div_mod::lemma_mod_division_less_than_divisor(rest_a, va);
    vstd::arithmetic::div_mod::lemma_fundamental_div_mod(rest_b, vb);
    vstd::arithmetic::div_mod::lemma_mod_division_less_than_divisor(rest_b, vb);

    // Comparing the two remainder decompositions bounds the pressure gap
    // by strictly less than two in either direction.
    assert((pressure_a - pressure_b) * (va * vb) == s + residue_b * va - residue_a * vb)
        by (nonlinear_arith)
        requires
            rest_a == va * pressure_a + residue_a,
            rest_b == vb * pressure_b + residue_b,
            rest_a * vb - rest_b * va == s,
    ;
    assert(-2 * (va * vb) < (pressure_a - pressure_b) * (va * vb) < 2 * (va * vb))
        by (nonlinear_arith)
        requires
            -(va + vb) < s < va + vb,
            0 <= residue_a < va,
            0 <= residue_b < vb,
            va >= 1,
            vb >= 1,
            (pressure_a - pressure_b) * (va * vb) == s + residue_b * va - residue_a * vb,
    ;
    assert(-2 < pressure_a - pressure_b < 2) by (nonlinear_arith)
        requires
            va * vb >= 1,
            -2 * (va * vb) < (pressure_a - pressure_b) * (va * vb) < 2 * (va * vb),
    ;
}

/// Computes the bounded one-step equalization flow, carrying the
/// cross-multiplications in 128-bit intermediates so that no product of
/// a species amount and a volume can overflow.
pub fn flow_amount(
    amount_a: i64,
    volume_a: Volume,
    amount_b: i64,
    volume_b: Volume,
    max_flow: i64,
) -> (r: i64)
    requires
        amount_a >= 0,
        amount_b >= 0,
        max_flow >= 0,
        volume_a.spec_value() >= 0,
        volume_b.spec_value() >= 0,
    ensures
        r == spec_flow_amount(
            amount_a as int,
            volume_a.spec_value(),
            amount_b as int,
            volume_b.spec_value(),
            max_flow as int,
        ),
{
    let va: i128 = volume_a.value() as i128;
    let vb: i128 = volume_b.value() as i128;
    let denom: i128 = va + vb;
    if denom <= 0 {
        return 0;
    }
    assert(0 <= amount_a as int * vb as int <= i64::MAX * i64::MAX) by (nonlinear_arith)
        requires
            0 <= amount_a as int <= i64::MAX,
            0 <= vb as int <= i64::MAX,
    ;
    assert(0 <= amount_b as int * va as int <= i64::MAX * i64::MAX) by (nonlinear_arith)
        requires
            0 <= amount_b as int <= i64::MAX,
            0 <= va as int <= i64::MAX,
    ;
    let numerator: i128 = (amount_a as i128) * vb - (amount_b as i128) * va;
    let mut equalize: i128 = numerator / denom;
    proof {
        lemma_trunc_div_bounds(numerator as int, denom as int);
        assert(equalize as int == trunc_div(numerator as int, denom as int));
    }
    let max_flow_wide: i128 = max_flow as i128;
    let hi: i128 = if (amount_a as i128) < max_flow_wide {
        amount_a as i128
    } else {
        max_flow_wide
    };
    let lo: i128 = -(if (amount_b as i128) < max_flow_wide {
        amount_b as i128
    } else {
        max_flow_wide
    });
    if equalize > hi {
        equalize = hi;
    } else if equalize < lo {
        equalize = lo;
    }
    equalize as i64
}

} // verus!
