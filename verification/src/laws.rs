//! The library's stated laws: conservation, atomic skipping, and the
//! identity behaviour of zero reactions, each proved once and for all.
//! The remaining engine-wide guarantees live on the operations
//! themselves: `Engine::tick` ensures that the invariant — including
//! non-negativity of every reservoir — survives every tick, and the
//! pipe-flow bound and equalization laws stand beside the flow
//! algorithm in the `flow` module.

use vstd::prelude::*;
use vstd::math::abs;
use crate::engine::{
    apply_pipe, apply_pipes, apply_reaction, apply_reactions, container_after_reaction, gas_minus,
    gas_plus, lemma_pipe_step, pipe_flow, pipe_ok, reaction_feasible, spec_tick, Container, Engine,
};
use crate::flow::{lemma_flow_equalizes, trunc_div};
use crate::quantity::{Fluid, Gas, Solid};
use crate::reaction::{balanced, oxygen_atoms, Reaction};

verus! {

/// Conservation under a full, unskipped reaction application: because
/// an accepted reaction's deltas are atom-balanced, summing the
/// oxygen-atom count `2*O2 + 2*CO2 + CO + H2O(g) + H2O(l) + CH2O`
/// across all affected species yields no net change.
pub proof fn lemma_reaction_conserves_oxygen(gas: Gas, fluid: Fluid, solid: Solid, r: Reaction)
    requires
        balanced(r.gas_delta, r.fluid_delta, r.solid_delta),
    ensures
        2 * (gas.o2 + r.gas_delta.o2) + 2 * (gas.co2 + r.gas_delta.co2) + (gas.co + r.gas_delta.co)
            + (gas.h2o + r.gas_delta.h2o) + (fluid.h2o + r.fluid_delta.h2o) + (solid.ch2o
            + r.solid_delta.ch2o) == oxygen_atoms(gas, fluid, solid),
{
}

/// Skipping is atomic: when a reaction is infeasible on any one of the
/// gas, fluid, or solid categories, none of the three changes — the
/// whole container table is left exactly as it was.
pub proof fn lemma_skip_is_atomic(cs: Seq<Container>, r: Reaction)
    requires
        0 <= r.container.spec_index() < cs.len(),
        !reaction_feasible(cs[r.container.spec_index()], r),
    ensures
        apply_reaction(cs, r) == cs,
{
}

/// A reaction with all-zero deltas is accepted — zero deltas satisfy
/// the atom-balance identity — and applying it changes nothing.
pub proof fn lemma_zero_reaction_identity(cs: Seq<Container>, r: Reaction)
    requires
        r.gas_delta == Gas::spec_zero(),
        r.fluid_delta == Fluid::spec_zero(),
        r.solid_delta == Solid::spec_zero(),
        0 <= r.container.spec_index() < cs.len(),
        cs[r.container.spec_index()].state_ok(),
    ensures
        balanced(r.gas_delta, r.fluid_delta, r.solid_delta),
        apply_reaction(cs, r) == cs,
{
    let idx = r.container.spec_index();
    let c = cs[idx];
    assert(reaction_feasible(c, r));
    assert(container_after_reaction(c, r) == c);
    assert(cs.update(idx, c) =~= cs);
}

/// A whole tick of an engine whose reactions all have zero deltas and
/// which has no pipes leaves the container table unchanged.
pub proof fn lemma_zero_reactions_tick_identity(e: Engine)
    requires
        e.wf(),
        e.spec_pipes().len() == 0,
        forall|i: int|
            0 <= i < e.spec_reactions().len() ==> {
                let r = #[trigger] e.spec_reactions()[i];
                &&& r.gas_delta == Gas::spec_zero()
                &&& r.fluid_delta == Fluid::spec_zero()
                &&& r.solid_delta == Solid::spec_zero()
            },
    ensures
        spec_tick(e) == e.spec_containers(),
{
    let cs = e.spec_containers();
    let rs = e.spec_reactions();
    assert forall|n: int| 0 <= n <= rs.len() implies apply_reactions(cs, rs, n) == cs by {
        lemma_zero_reactions_prefix(e, n);
    }
    assert(apply_pipes(cs, e.spec_pipes(), 0) == cs);
}

/// Equilibrium convergence at the tick level: in an engine with no
/// reactions and a single pipe, one tick leaves the two endpoints'
/// partial pressures equal up to one unit of integer truncation, for
/// every species whose flow rate is at least the one-step equalizing
/// amount.
pub proof fn lemma_single_pipe_tick_equalizes(e: Engine)
    requires
        e.wf(),
        e.spec_reactions().len() == 0,
        e.spec_pipes().len() == 1,
    ensures
        ({
            let p = e.spec_pipes()[0];
            let a = e.spec_containers()[p.a.spec_index()];
            let b = e.spec_containers()[p.b.spec_index()];
            let va = a.volume.spec_value();
            let vb = b.volume.spec_value();
            let a2 = spec_tick(e)[p.a.spec_index()];
            let b2 = spec_tick(e)[p.b.spec_index()];
            &&& p.flow_rate.o2 >= abs(trunc_div(a.gas.o2 * vb - b.gas.o2 * va, va + vb)) ==> -1
                <= a2.gas.o2 as int / va - b2.gas.o2 as int / vb <= 1
            &&& p.flow_rate.co2 >= abs(trunc_div(a.gas.co2 * vb - b.gas.co2 * va, va + vb)) ==> -1
                <= a2.gas.co2 as int / va - b2.gas.co2 as int / vb <= 1
            &&& p.flow_rate.co >= abs(trunc_div(a.gas.co * vb - b.gas.co * va, va + vb)) ==> -1
                <= a2.gas.co as int / va - b2.gas.co as int / vb <= 1
            &&& p.flow_rate.h2o >= abs(trunc_div(a.gas.h2o * vb - b.gas.h2o * va, va + vb)) ==> -1
                <= a2.gas.h2o as int / va - b2.gas.h2o as int / vb <= 1
        }),
{
    let cs = e.spec_containers();
    let ps = e.spec_pipes();
    let p = ps[0];
    assert(pipe_ok(p, cs.len() as int));
    let ia = p.a.spec_index();
    let ib = p.b.spec_index();
    let a = cs[ia];
    let b = cs[ib];
    let va = a.volume.spec_value();
    let vb = b.volume.spec_value();
    assert(apply_reactions(cs, e.spec_reactions(), 0) == cs);
    assert(apply_pipes(cs, ps, 0) == cs);
    assert(apply_pipes(cs, ps, 1) == apply_pipe(cs, p));
    assert(spec_tick(e) == apply_pipe(cs, p));
    lemma_pipe_step(cs, p);
    let f = pipe_flow(a, b, p.flow_rate);
    let a2 = spec_tick(e)[ia];
    let b2 = spec_tick(e)[ib];
    assert(a2.gas == gas_minus(a.gas, f) && b2.gas == gas_plus(b.gas, f));
    if p.flow_rate.o2 >= abs(trunc_div(a.gas.o2 * vb - b.gas.o2 * va, va + vb)) {
        lemma_flow_equalizes(a.gas.o2 as int, va, b.gas.o2 as int, vb, p.flow_rate.o2 as int);
    }
    if p.flow_rate.co2 >= abs(trunc_div(a.gas.co2 * vb - b.gas.co2 * va, va + vb)) {
        lemma_flow_equalizes(a.gas.co2 as int, va, b.gas.co2 as int, vb, p.flow_rate.co2 as int);
    }
    if p.flow_rate.co >= abs(trunc_div(a.gas.co * vb - b.gas.co * va, va + vb)) {
        lemma_flow_equalizes(a.gas.co as int, va, b.gas.co as int, vb, p.flow_rate.co as int);
    }
    if p.flow_rate.h2o >= abs(trunc_div(a.gas.h2o * vb - b.gas.h2o * va, va + vb)) {
        lemma_flow_equalizes(a.gas.h2o as int, va, b.gas.h2o as int, vb, p.flow_rate.h2o as int);
    }
}

/// Every prefix of an all-zero reaction list maps the container table
/// to itself.
proof fn lemma_zero_reactions_prefix(e: Engine, n: int)
    requires
        e.wf(),
        0 <= n <= e.spec_reactions().len(),
        forall|i: int|
            0 <= i < e.spec_reactions().len() ==> {
                let r = #[trigger] e.spec_reactions()[i];
                &&& r.gas_delta == Gas::spec_zero()
                &&& r.fluid_delta == Fluid::spec_zero()
                &&& r.solid_delta == Solid::spec_zero()
            },
    ensures
        apply_reactions(e.spec_containers(), e.spec_reactions(), n) == e.spec_containers(),
    decreases n,
{
    let cs = e.spec_containers();
    let rs = e.spec_reactions();
    if n > 0 {
        lemma_zero_reactions_prefix(e, n - 1);
        lemma_zero_reaction_identity(cs, rs[n - 1]);
    }
}

} // verus!
