//! Reactions: fixed per-tick transformations of one container's
//! reservoirs, validated at registration time for atom balance over the
//! species set {O2, CO2, CO, H2O(g), H2O(l), CH2O}.

use vstd::prelude::*;
use crate::engine::ContainerId;
use crate::quantity::{Fluid, Gas, Solid};

verus! {

/// Carbon atoms introduced by a gas/fluid/solid amount triple: one per
/// CO2, CO, and CH2O molecule.
pub open spec fn carbon_atoms(gas: Gas, fluid: Fluid, solid: Solid) -> int {
    gas.co2 + gas.co + solid.ch2o
}

/// Hydrogen atoms introduced by a gas/fluid/solid amount triple: two per
/// water molecule (gaseous or liquid) and per CH2O unit.
pub open spec fn hydrogen_atoms(gas: Gas, fluid: Fluid, solid: Solid) -> int {
    2 * (gas.h2o + fluid.h2o + solid.ch2o)
}

/// Oxygen atoms introduced by a gas/fluid/solid amount triple: two per
/// O2 and CO2 molecule, one per CO, water, and CH2O unit.
pub open spec fn oxygen_atoms(gas: Gas, fluid: Fluid, solid: Solid) -> int {
    2 * gas.o2 + 2 * gas.co2 + gas.co + gas.h2o + fluid.h2o + solid.ch2o
}

/// The atom-balance identity: a delta triple is balanced when it neither
/// creates nor destroys carbon, hydrogen, or oxygen atoms.
pub open spec fn balanced(gas: Gas, fluid: Fluid, solid: Solid) -> bool {
    &&& carbon_atoms(gas, fluid, solid) == 0
    &&& hydrogen_atoms(gas, fluid, solid) == 0
    &&& oxygen_atoms(gas, fluid, solid) == 0
}

/// A fixed per-tick transformation of one container's reservoirs.
/// Negative delta components consume resources.
#[derive(Debug, Clone, Copy)]
pub struct Reaction {
    pub container: ContainerId,
    pub gas_delta: Gas,
    pub fluid_delta: Fluid,
    pub solid_delta: Solid,
}

impl Reaction {
    pub fn new(
        container: ContainerId,
        gas_delta: Gas,
        fluid_delta: Fluid,
        solid_delta: Solid,
    ) -> (r: Reaction)
        ensures
            r == (Reaction { container, gas_delta, fluid_delta, solid_delta }),
    {
        Reaction { container, gas_delta, fluid_delta, solid_delta }
    }

    /// Evaluates the atom-balance identity on this reaction's deltas.
    pub fn check(&self) -> (r: bool)
        ensures
            r == balanced(self.gas_delta, self.fluid_delta, self.solid_delta),
    {
        let gas = self.gas_delta;
        let fluid = self.fluid_delta;
        let solid = self.solid_delta;

        let carbon: i128 = gas.co2 as i128 + gas.co as i128 + solid.ch2o as i128;
        let hydrogen: i128 = 2 * (gas.h2o as i128 + fluid.h2o as i128 + solid.ch2o as i128);
        let oxygen: i128 = 2 * gas.o2 as i128 + 2 * gas.co2 as i128 + gas.co as i128
            + gas.h2o as i128 + fluid.h2o as i128 + solid.ch2o as i128;

        carbon == 0 && hydrogen == 0 && oxygen == 0
    }
}

} // verus!
