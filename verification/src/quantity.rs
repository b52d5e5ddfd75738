//! Quantity value types: container volume and the gas, fluid, and solid
//! reservoir amounts, with delta application and pressure arithmetic.

use vstd::prelude::*;

verus! {

/// A fixed, strictly positive container capacity.
#[derive(Debug, Clone, Copy, PartialEq, Eq, Hash)]
pub struct Volume(i64);

impl Volume {
    /// The capacity as a mathematical integer.
    pub closed spec fn spec_value(self) -> int {
        self.0 as int
    }

    pub fn new(value: i64) -> (v: Volume)
        requires
            value > 0,
        ensures
            v.spec_value() == value,
    {
        Volume(value)
    }

    pub fn value(self) -> (v: i64)
        ensures
            v == self.spec_value(),
    {
        self.0
    }
}

/// Gas amounts in integer moles, one field per tracked species.
/// Dividing an amount by a container volume gives that species'
/// partial pressure.
#[derive(Debug, Clone, Copy, PartialEq, Eq, Hash)]
pub struct Gas {
    pub o2: i64,
    pub co2: i64,
    pub co: i64,
    pub h2o: i64,
}

impl Gas {
    pub open spec fn spec_zero() -> Gas {
        Gas { o2: 0, co2: 0, co: 0, h2o: 0 }
    }

    pub fn zero() -> (g: Gas)
        ensures
            g == Gas::spec_zero(),
    {
        Gas { o2: 0, co2: 0, co: 0, h2o: 0 }
    }

    pub open spec fn spec_non_negative(self) -> bool {
        self.o2 >= 0 && self.co2 >= 0 && self.co >= 0 && self.h2o >= 0
    }

    pub fn is_non_negative(&self) -> (r: bool)
        ensures
            r == self.spec_non_negative(),
    {
        self.o2 >= 0 && self.co2 >= 0 && self.co >= 0 && self.h2o >= 0
    }

    /// Moles of the species per unit volume, by flooring division.
    pub fn partial_pressure(amount: i64, volume: Volume) -> (p: i64)
        requires
            amount >= 0,
            volume.spec_value() > 0,
        ensures
            p == amount as int / volume.spec_value(),
    {
        amount / volume.value()
    }

    /// The total pressure over all four species. Each species is divided
    /// by the volume separately, so the total under-reports a combined
    /// division by up to three units.
    pub open spec fn spec_pressure(self, volume: int) -> int {
        self.o2 as int / volume + self.co2 as int / volume + self.co as int / volume
            + self.h2o as int / volume
    }

    pub fn pressure(&self, volume: Volume) -> (p: i64)
        requires
            self.spec_non_negative(),
            volume.spec_value() > 0,
            self.o2 + self.co2 + self.co + self.h2o <= i64::MAX,
        ensures
            p == self.spec_pressure(volume.spec_value()),
    {
        proof {
            lemma_div_le_dividend(self.o2 as int, volume.spec_value());
            lemma_div_le_dividend(self.co2 as int, volume.spec_value());
            lemma_div_le_dividend(self.co as int, volume.spec_value());
            lemma_div_le_dividend(self.h2o as int, volume.spec_value());
        }
        Gas::partial_pressure(self.o2, volume) + Gas::partial_pressure(self.co2, volume)
            + Gas::partial_pressure(self.co, volume) + Gas::partial_pressure(self.h2o, volume)
    }

    /// Whether adding `delta` keeps every species non-negative.
    pub open spec fn spec_can_apply(self, delta: Gas) -> bool {
        &&& self.o2 + delta.o2 >= 0
        &&& self.co2 + delta.co2 >= 0
        &&& self.co + delta.co >= 0
        &&& self.h2o + delta.h2o >= 0
    }

    pub fn can_apply_delta(&self, delta: Gas) -> (r: bool)
        ensures
            r == self.spec_can_apply(delta),
    {
        (self.o2 as i128) + (delta.o2 as i128) >= 0 && (self.co2 as i128) + (delta.co2 as i128)
            >= 0 && (self.co as i128) + (delta.co as i128) >= 0 && (self.h2o as i128)
            + (delta.h2o as i128) >= 0
    }

    /// Adds `delta` component-wise. The caller must already have
    /// established feasibility; no check is performed here.
    pub fn apply_delta(&mut self, delta: Gas)
        requires
            old(self).spec_can_apply(delta),
            old(self).o2 + delta.o2 <= i64::MAX,
            old(self).co2 + delta.co2 <= i64::MAX,
            old(self).co + delta.co <= i64::MAX,
            old(self).h2o + delta.h2o <= i64::MAX,
        ensures
            final(self).o2 == old(self).o2 + delta.o2,
            final(self).co2 == old(self).co2 + delta.co2,
            final(self).co == old(self).co + delta.co,
            final(self).h2o == old(self).h2o + delta.h2o,
    {
        self.o2 = self.o2 + delta.o2;
        self.co2 = self.co2 + delta.co2;
        self.co = self.co + delta.co;
        self.h2o = self.h2o + delta.h2o;
    }
}

/// Liquid water in integer moles.
#[derive(Debug, Clone, Copy, PartialEq, Eq, Hash)]
pub struct Fluid {
    pub h2o: i64,
}

impl Fluid {
    pub open spec fn spec_zero() -> Fluid {
        Fluid { h2o: 0 }
    }

    pub fn zero() -> (f: Fluid)
        ensures
            f == Fluid::spec_zero(),
    {
        Fluid { h2o: 0 }
    }

    pub open spec fn spec_can_apply(self, delta: Fluid) -> bool {
        self.h2o + delta.h2o >= 0
    }

    pub fn can_apply_delta(&self, delta: Fluid) -> (r: bool)
        ensures
            r == self.spec_can_apply(delta),
    {
        (self.h2o as i128) + (delta.h2o as i128) >= 0
    }

    pub fn apply_delta(&mut self, delta: Fluid)
        requires
            old(self).spec_can_apply(delta),
            old(self).h2o + delta.h2o <= i64::MAX,
        ensures
            final(self).h2o == old(self).h2o + delta.h2o,
    {
        self.h2o = self.h2o + delta.h2o;
    }
}

/// Organic biomass in integer moles of its CH2O stoichiometric unit.
#[derive(Debug, Clone, Copy, PartialEq, Eq, Hash)]
pub struct Solid {
    pub ch2o: i64,
}

impl Solid {
    pub open spec fn spec_zero() -> Solid {
        Solid { ch2o: 0 }
    }

    pub fn zero() -> (s: Solid)
        ensures
            s == Solid::spec_zero(),
    {
        Solid { ch2o: 0 }
    }

    pub open spec fn spec_can_apply(self, delta: Solid) -> bool {
        self.ch2o + delta.ch2o >= 0
    }

    pub fn can_apply_delta(&self, delta: Solid) -> (r: bool)
        ensures
            r == self.spec_can_apply(delta),
    {
        (self.ch2o as i128) + (delta.ch2o as i128) >= 0
    }

    pub fn apply_delta(&mut self, delta: Solid)
        requires
            old(self).spec_can_apply(delta),
            old(self).ch2o + delta.ch2o <= i64::MAX,
        ensures
            final(self).ch2o == old(self).ch2o + delta.ch2o,
    {
        self.ch2o = self.ch2o + delta.ch2o;
    }
}

/// For a non-negative dividend and positive divisor, the quotient lies
/// between zero and the dividend.
pub proof fn lemma_div_le_dividend(a: int, d: int)
    requires
        a >= 0,
        d > 0,
    ensures
        0 <= a / d <= a,
{
    vstd::arithmetic::div_mod::lemma_div_pos_is_pos(a, d);
    vstd::arithmetic::div_mod::lemma_div_nonincreasing(a, d);
}

/// Constructs a gas mixture from a total pressure and per-species mole
/// fraction parts. Each species amount is `pressure * volume *
/// species_parts / divisor`, floored independently.
pub fn gas_from_parts(
    volume: Volume,
    pressure: i64,
    o2_parts: i64,
    co2_parts: i64,
    h2o_parts: i64,
    divisor: i64,
) -> (g: Gas)
    requires
        volume.spec_value() > 0,
        pressure >= 0,
        o2_parts >= 0,
        co2_parts >= 0,
        h2o_parts >= 0,
        divisor > 0,
        pressure * volume.spec_value() <= i64::MAX,
        pressure * volume.spec_value() * o2_parts <= i64::MAX,
        pressure * volume.spec_value() * co2_parts <= i64::MAX,
        pressure * volume.spec_value() * h2o_parts <= i64::MAX,
    ensures
        g.o2 == pressure * volume.spec_value() * o2_parts / (divisor as int),
        g.co2 == pressure * volume.spec_value() * co2_parts / (divisor as int),
        g.co == 0,
        g.h2o == pressure * volume.spec_value() * h2o_parts / (divisor as int),
        g.spec_non_negative(),
{
    let total: i64 = pressure * volume.value();
    proof {
        vstd::arithmetic::mul::lemma_mul_nonnegative(pressure as int, volume.spec_value());
        vstd::arithmetic::mul::lemma_mul_nonnegative(
            pressure * volume.spec_value(),
            o2_parts as int,
        );
        vstd::arithmetic::mul::lemma_mul_nonnegative(
            pressure * volume.spec_value(),
            co2_parts as int,
        );
        vstd::arithmetic::mul::lemma_mul_nonnegative(
            pressure * volume.spec_value(),
            h2o_parts as int,
        );
    }
    let raw_o2: i64 = total * o2_parts;
    let raw_co2: i64 = total * co2_parts;
    let raw_h2o: i64 = total * h2o_parts;

    proof {
        lemma_div_le_dividend(raw_o2 as int, divisor as int);
        lemma_div_le_dividend(raw_co2 as int, divisor as int);
        lemma_div_le_dividend(raw_h2o as int, divisor as int);
    }
    let o2: i64 = raw_o2 / divisor;
    let co2: i64 = raw_co2 / divisor;
    let h2o: i64 = raw_h2o / divisor;
    // Each component is floored separately, so the sum can fall slightly
    // below the total implied by `pressure * volume`.

    Gas { o2, co2, co: 0, h2o }
}

/// Because each species of `gas_from_parts` is floored independently, the
/// output never holds more matter than `pressure * volume` implies: when
/// the mole-fraction parts sum to at most the divisor, the summed output
/// amounts stay at or below `pressure * volume`.
pub proof fn lemma_gas_from_parts_total(t: int, p1: int, p2: int, p3: int, d: int)
    requires
        t >= 0,
        p1 >= 0,
        p2 >= 0,
        p3 >= 0,
        d > 0,
        p1 + p2 + p3 <= d,
    ensures
        t * p1 / d + t * p2 / d + t * p3 / d <= t,
{
    let q1 = t * p1 / d;
    let q2 = t * p2 / d;
    let q3 = t * p3 / d;
    vstd::arithmetic::mul::lemma_mul_nonnegative(t, p1);
    vstd::arithmetic::mul::lemma_mul_nonnegative(t, p2);
    vstd::arithmetic::mul::lemma_mul_nonnegative(t, p3);
    vstd::arithmetic::div_mod::lemma_fundamental_div_mod(t * p1, d);
    vstd::arithmetic::div_mod::lemma_fundamental_div_mod(t * p2, d);
    vstd::arithmetic::div_mod::lemma_fundamental_div_mod(t * p3, d);
    vstd::arithmetic::div_mod::lemma_mod_division_less_than_divisor(t * p1, d);
    vstd::arithmetic::div_mod::lemma_mod_division_less_than_divisor(t * p2, d);
    vstd::arithmetic::div_mod::lemma_mod_division_less_than_divisor(t * p3, d);
    assert(d * q1 <= t * p1);
    assert(d * q2 <= t * p2);
    assert(d * q3 <= t * p3);
    assert(t * p1 + t * p2 + t * p3 == t * (p1 + p2 + p3)) by (nonlinear_arith);
    assert(t * (p1 + p2 + p3) <= t * d) by (nonlinear_arith)
        requires
            t >= 0,
            p1 + p2 + p3 <= d,
    ;
    assert(d * (q1 + q2 + q3) <= t * d) by (nonlinear_arith)
        requires
            d * q1 <= t * p1,
            d * q2 <= t * p2,
            d * q3 <= t * p3,
            t * p1 + t * p2 + t * p3 <= t * d,
    ;
    assert(q1 + q2 + q3 <= t) by (nonlinear_arith)
        requires
            d > 0,
            d * (q1 + q2 + q3) <= t * d,
    ;
}

} // verus!
