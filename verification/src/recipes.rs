//! Pre-balanced reaction builders for common chemistries, and a helper
//! for mixing a thin CO2-dominated atmosphere.

use vstd::prelude::*;
use crate::engine::{ContainerId, Engine};
use crate::quantity::{gas_from_parts, Fluid, Gas, Solid, Volume};
use crate::reaction::Reaction;

verus! {

/// The gas delta of a respiration-style consumer burning `q` moles of
/// O2 per tick: CH2O + O2 -> CO2 + H2O.
pub open spec fn human_gas_delta(q: int) -> Gas {
    Gas { o2: -q as i64, co2: q as i64, co: 0, h2o: q as i64 }
}

/// Registers a respiration-style consumer on `container`: each tick it
/// burns `o2_per_tick` moles of O2 and biomass into CO2 and water
/// vapour, and halts while any input is exhausted.
pub fn add_human(engine: &mut Engine, container: ContainerId, o2_per_tick: i64)
    requires
        old(engine).wf(),
        0 <= container.spec_index() < old(engine).spec_containers().len(),
        o2_per_tick >= 0,
    ensures
        final(engine).wf(),
        final(engine).spec_reactions() == old(engine).spec_reactions().push(
            Reaction {
                container,
                gas_delta: human_gas_delta(o2_per_tick as int),
                fluid_delta: Fluid::spec_zero(),
                solid_delta: Solid { ch2o: -o2_per_tick as i64 },
            },
        ),
        final(engine).spec_containers() == old(engine).spec_containers(),
        final(engine).spec_pipes() == old(engine).spec_pipes(),
        final(engine).spec_root() == old(engine).spec_root(),
{
    engine.add_reaction(
        container,
        Gas { o2: -o2_per_tick, co2: o2_per_tick, co: 0, h2o: o2_per_tick },
        Fluid::zero(),
        Solid { ch2o: -o2_per_tick },
    );
}

/// The gas delta of a photosynthesis-style producer fixing `q` moles of
/// CO2 per tick: CO2 + H2O(l) -> O2 + CH2O.
pub open spec fn photosynthesis_gas_delta(q: int) -> Gas {
    Gas { o2: q as i64, co2: -q as i64, co: 0, h2o: 0 }
}

/// Registers a photosynthesis-style producer on `container`: each tick
/// it fixes `co2_per_tick` moles of CO2 and liquid water into O2 and
/// biomass, and halts while any input is exhausted.
pub fn add_photosynthesis(engine: &mut Engine, container: ContainerId, co2_per_tick: i64)
    requires
        old(engine).wf(),
        0 <= container.spec_index() < old(engine).spec_containers().len(),
        co2_per_tick >= 0,
    ensures
        final(engine).wf(),
        final(engine).spec_reactions() == old(engine).spec_reactions().push(
            Reaction {
                container,
                gas_delta: photosynthesis_gas_delta(co2_per_tick as int),
                fluid_delta: Fluid { h2o: -co2_per_tick as i64 },
                solid_delta: Solid { ch2o: co2_per_tick as i64 },
            },
        ),
        final(engine).spec_containers() == old(engine).spec_containers(),
        final(engine).spec_pipes() == old(engine).spec_pipes(),
        final(engine).spec_root() == old(engine).spec_root(),
{
    engine.add_reaction(
        container,
        Gas { o2: co2_per_tick, co2: -co2_per_tick, co: 0, h2o: 0 },
        Fluid { h2o: -co2_per_tick },
        Solid { ch2o: co2_per_tick },
    );
}

/// The gas delta of a catalytic converter splitting `q` moles of CO2
/// per tick: 2 CO2 -> 2 CO + O2. `q` must be even.
pub open spec fn moxie_gas_delta(q: int) -> Gas {
    Gas { o2: (q / 2) as i64, co2: -q as i64, co: q as i64, h2o: 0 }
}

/// Registers a catalytic converter on `container`: each tick it splits
/// `co2_per_tick` moles of CO2 (an even number, for 2 CO2 -> 2 CO + O2)
/// into CO and O2, and halts while CO2 is exhausted.
pub fn add_moxie(engine: &mut Engine, container: ContainerId, co2_per_tick: i64)
    requires
        old(engine).wf(),
        0 <= container.spec_index() < old(engine).spec_containers().len(),
        co2_per_tick >= 0,
        co2_per_tick % 2 == 0,
    ensures
        final(engine).wf(),
        final(engine).spec_reactions() == old(engine).spec_reactions().push(
            Reaction {
                container,
                gas_delta: moxie_gas_delta(co2_per_tick as int),
                fluid_delta: Fluid::spec_zero(),
                solid_delta: Solid::spec_zero(),
            },
        ),
        final(engine).spec_containers() == old(engine).spec_containers(),
        final(engine).spec_pipes() == old(engine).spec_pipes(),
        final(engine).spec_root() == old(engine).spec_root(),
{
    let o2_per_tick = co2_per_tick / 2;
    proof {
        vstd::arithmetic::div_mod::lemma_fundamental_div_mod(co2_per_tick as int, 2);
    }
    engine.add_reaction(
        container,
        Gas { o2: o2_per_tick, co2: -co2_per_tick, co: co2_per_tick, h2o: 0 },
        Fluid::zero(),
        Solid::zero(),
    );
}

/// Mixes a thin, CO2-dominated atmosphere of the given total pressure
/// for a container of the given volume, using mole fractions in parts
/// per ten thousand.
pub fn thin_atmosphere(volume: Volume, pressure: i64) -> (g: Gas)
    requires
        volume.spec_value() > 0,
        pressure >= 0,
        pressure * volume.spec_value() * 9532 <= i64::MAX,
    ensures
        g.o2 == pressure * volume.spec_value() * 13 / 10000,
        g.co2 == pressure * volume.spec_value() * 9532 / 10000,
        g.co == 0,
        g.h2o == 0,
        g.spec_non_negative(),
{
    // The reported composition is a volume (molar) ratio, so it stands
    // in directly for mole fractions.
    proof {
        let pv = pressure * volume.spec_value();
        vstd::arithmetic::mul::lemma_mul_nonnegative(pressure as int, volume.spec_value());
        assert(pv * 13 <= pv * 9532 && pv <= pv * 9532 && pv * 0 == 0) by (nonlinear_arith)
            requires
                pv >= 0,
        ;
        vstd::arithmetic::div_mod::lemma_div_of0(10000);
    }
    gas_from_parts(volume, pressure, 13, 9532, 0, 10000)
}

} // verus!
