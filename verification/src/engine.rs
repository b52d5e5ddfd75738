//! Containers, pipes, and the engine that owns them, with the tick
//! algorithm: all reactions in registration order (skipping infeasible
//! ones atomically), then all pipe flows in registration order.

use vstd::prelude::*;
use crate::flow::spec_flow_amount;
use crate::quantity::{Fluid, Gas, Solid, Volume};
use crate::reaction::{balanced, oxygen_atoms, Reaction};

verus! {

/// An opaque, append-only index into an engine's container table. Valid
/// only against the engine that issued it.
#[derive(Debug, Clone, Copy, PartialEq, Eq, Hash)]
pub struct ContainerId(usize);

impl ContainerId {
    /// The table index as a mathematical integer.
    pub closed spec fn spec_index(self) -> int {
        self.0 as int
    }

    pub fn index(self) -> (i: usize)
        ensures
            i == self.spec_index(),
    {
        self.0
    }
}

/// A node of the container tree: a sealed volume holding gas, fluid, and
/// solid reservoirs, plus the ids of its child containers.
#[derive(Debug, Clone)]
pub struct Container {
    pub volume: Volume,
    pub gas: Gas,
    pub fluid: Fluid,
    pub solid: Solid,
    pub children: Vec<ContainerId>,
}

impl Container {
    fn new(volume: Volume, gas: Gas, fluid: Fluid, solid: Solid) -> (c: Container)
        ensures
            c.volume == volume,
            c.gas == gas,
            c.fluid == fluid,
            c.solid == solid,
            c.children@ =~= Seq::<ContainerId>::empty(),
    {
        Container { volume, gas, fluid, solid, children: Vec::new() }
    }

    /// A positive volume and non-negative reservoirs.
    pub open spec fn state_ok(self) -> bool {
        &&& self.volume.spec_value() > 0
        &&& self.gas.spec_non_negative()
        &&& self.fluid.h2o >= 0
        &&& self.solid.ch2o >= 0
    }

    /// Oxygen atoms held by this container's reservoirs. Every tracked
    /// species carries at least one oxygen atom, so this sum dominates
    /// every individual amount of a well-formed container.
    pub open spec fn oxygen(self) -> int {
        oxygen_atoms(self.gas, self.fluid, self.solid)
    }

    /// The total pressure of the container's gas over its volume.
    pub fn pressure(&self) -> (p: i64)
        requires
            self.state_ok(),
            self.gas.o2 + self.gas.co2 + self.gas.co + self.gas.h2o <= i64::MAX,
        ensures
            p == self.gas.spec_pressure(self.volume.spec_value()),
    {
        self.gas.pressure(self.volume)
    }
}

/// A bounded bidirectional gas-exchange channel between two distinct
/// containers; `flow_rate` caps the per-tick magnitude of exchange for
/// each species separately.
#[derive(Debug, Clone, Copy, PartialEq, Eq)]
pub struct Pipe {
    pub a: ContainerId,
    pub b: ContainerId,
    pub flow_rate: Gas,
}

impl Pipe {
    pub fn new(a: ContainerId, b: ContainerId, flow_rate: Gas) -> (p: Pipe)
        requires
            a.spec_index() != b.spec_index(),
            flow_rate.spec_non_negative(),
        ensures
            p == (Pipe { a, b, flow_rate }),
    {
        Pipe { a, b, flow_rate }
    }
}

/// Every container of the table has a positive volume and non-negative
/// reservoirs.
pub open spec fn states_ok(cs: Seq<Container>) -> bool {
    forall|i: int| 0 <= i < cs.len() ==> (#[trigger] cs[i]).state_ok()
}

/// Every child id stored in the table points back into the table.
pub open spec fn children_ok(cs: Seq<Container>, n: int) -> bool {
    forall|i: int, j: int|
        0 <= i < cs.len() && 0 <= j < cs[i].children@.len() ==> 0 <= (
        #[trigger] cs[i].children@[j]).spec_index() < n
}

/// Oxygen atoms held across the whole container table.
pub open spec fn total_oxygen(cs: Seq<Container>) -> int
    decreases cs.len(),
{
    if cs.len() == 0 {
        0
    } else {
        total_oxygen(cs.drop_last()) + cs.last().oxygen()
    }
}

/// A pipe whose endpoints are two distinct valid container ids and whose
/// flow rate is non-negative.
pub open spec fn pipe_ok(p: Pipe, n: int) -> bool {
    &&& 0 <= p.a.spec_index() < n
    &&& 0 <= p.b.spec_index() < n
    &&& p.a.spec_index() != p.b.spec_index()
    &&& p.flow_rate.spec_non_negative()
}

pub open spec fn pipes_ok(ps: Seq<Pipe>, n: int) -> bool {
    forall|i: int| 0 <= i < ps.len() ==> pipe_ok(#[trigger] ps[i], n)
}

/// A reaction aimed at a valid container whose deltas satisfy the
/// atom-balance identity.
pub open spec fn reaction_ok(r: Reaction, n: int) -> bool {
    &&& 0 <= r.container.spec_index() < n
    &&& balanced(r.gas_delta, r.fluid_delta, r.solid_delta)
}

pub open spec fn reactions_ok(rs: Seq<Reaction>, n: int) -> bool {
    forall|i: int| 0 <= i < rs.len() ==> reaction_ok(#[trigger] rs[i], n)
}

/// A reaction applies in full only when every one of the three reservoir
/// categories stays non-negative under its delta.
pub open spec fn reaction_feasible(c: Container, r: Reaction) -> bool {
    &&& c.gas.spec_can_apply(r.gas_delta)
    &&& c.fluid.spec_can_apply(r.fluid_delta)
    &&& c.solid.spec_can_apply(r.solid_delta)
}

/// The container state after one reaction's deltas are applied to all
/// three reservoir categories.
pub open spec fn container_after_reaction(c: Container, r: Reaction) -> Container {
    Container {
        gas: Gas {
            o2: (c.gas.o2 + r.gas_delta.o2) as i64,
            co2: (c.gas.co2 + r.gas_delta.co2) as i64,
            co: (c.gas.co + r.gas_delta.co) as i64,
            h2o: (c.gas.h2o + r.gas_delta.h2o) as i64,
        },
        fluid: Fluid { h2o: (c.fluid.h2o + r.fluid_delta.h2o) as i64 },
        solid: Solid { ch2o: (c.solid.ch2o + r.solid_delta.ch2o) as i64 },
        ..c
    }
}

/// One reaction step of the tick: either the reaction is feasible on all
/// three categories and applies in full, or it changes nothing.
pub open spec fn apply_reaction(cs: Seq<Container>, r: Reaction) -> Seq<Container> {
    let idx = r.container.spec_index();
    if 0 <= idx < cs.len() && reaction_feasible(cs[idx], r) {
        cs.update(idx, container_after_reaction(cs[idx], r))
    } else {
        cs
    }
}

/// The first `n` reactions applied in registration order; later
/// reactions observe the effects of earlier ones.
pub open spec fn apply_reactions(cs: Seq<Container>, rs: Seq<Reaction>, n: int) -> Seq<Container>
    decreases n,
{
    if n <= 0 {
        cs
    } else {
        apply_reaction(apply_reactions(cs, rs, n - 1), rs[n - 1])
    }
}

/// The per-species flows of one pipe, computed against its two
/// endpoints' current states. Positive components move from A to B.
pub open spec fn pipe_flow(a: Container, b: Container, rate: Gas) -> Gas {
    Gas {
        o2: spec_flow_amount(
            a.gas.o2 as int,
            a.volume.spec_value(),
            b.gas.o2 as int,
            b.volume.spec_value(),
            rate.o2 as int,
        ) as i64,
        co2: spec_flow_amount(
            a.gas.co2 as int,
            a.volume.spec_value(),
            b.gas.co2 as int,
            b.volume.spec_value(),
            rate.co2 as int,
        ) as i64,
        co: spec_flow_amount(
            a.gas.co as int,
            a.volume.spec_value(),
            b.gas.co as int,
            b.volume.spec_value(),
            rate.co as int,
        ) as i64,
        h2o: spec_flow_amount(
            a.gas.h2o as int,
            a.volume.spec_value(),
            b.gas.h2o as int,
            b.volume.spec_value(),
            rate.h2o as int,
        ) as i64,
    }
}

pub open spec fn gas_minus(g: Gas, f: Gas) -> Gas {
    Gas {
        o2: (g.o2 - f.o2) as i64,
        co2: (g.co2 - f.co2) as i64,
        co: (g.co - f.co) as i64,
        h2o: (g.h2o - f.h2o) as i64,
    }
}

pub open spec fn gas_plus(g: Gas, f: Gas) -> Gas {
    Gas {
        o2: (g.o2 + f.o2) as i64,
        co2: (g.co2 + f.co2) as i64,
        co: (g.co + f.co) as i64,
        h2o: (g.h2o + f.h2o) as i64,
    }
}

/// One pipe step of the tick: the four species flows leave endpoint A
/// and enter endpoint B together.
pub open spec fn apply_pipe(cs: Seq<Container>, p: Pipe) -> Seq<Container> {
    let ia = p.a.spec_index();
    let ib = p.b.spec_index();
    if 0 <= ia < cs.len() && 0 <= ib < cs.len() && ia != ib {
        let f = pipe_flow(cs[ia], cs[ib], p.flow_rate);
        let ca = Container { gas: gas_minus(cs[ia].gas, f), ..cs[ia] };
        let cb = Container { gas: gas_plus(cs[ib].gas, f), ..cs[ib] };
        cs.update(ia, ca).update(ib, cb)
    } else {
        cs
    }
}

/// The first `n` pipes applied in registration order; pipes sharing an
/// endpoint observe the flows of earlier pipes.
pub open spec fn apply_pipes(cs: Seq<Container>, ps: Seq<Pipe>, n: int) -> Seq<Container>
    decreases n,
{
    if n <= 0 {
        cs
    } else {
        apply_pipe(apply_pipes(cs, ps, n - 1), ps[n - 1])
    }
}

/// The oxygen total of a table of well-formed containers is
/// non-negative.
pub proof fn lemma_total_oxygen_nonneg(cs: Seq<Container>)
    requires
        states_ok(cs),
    ensures
        total_oxygen(cs) >= 0,
    decreases cs.len(),
{
    if cs.len() > 0 {
        assert forall|i: int| 0 <= i < cs.drop_last().len() implies (
        #[trigger] cs.drop_last()[i]).state_ok() by {
            assert(cs.drop_last()[i] == cs[i]);
        }
        lemma_total_oxygen_nonneg(cs.drop_last());
    }
}

/// One well-formed container never holds more oxygen atoms than the
/// whole table.
pub proof fn lemma_oxygen_le_total(cs: Seq<Container>, i: int)
    requires
        states_ok(cs),
        0 <= i < cs.len(),
    ensures
        cs[i].oxygen() <= total_oxygen(cs),
    decreases cs.len(),
{
    assert forall|k: int| 0 <= k < cs.drop_last().len() implies (
    #[trigger] cs.drop_last()[k]).state_ok() by {
        assert(cs.drop_last()[k] == cs[k]);
    }
    if i == cs.len() - 1 {
        lemma_total_oxygen_nonneg(cs.drop_last());
        assert(cs.last() == cs[i]);
    } else {
        lemma_oxygen_le_total(cs.drop_last(), i);
        assert(cs.drop_last()[i] == cs[i]);
        assert(cs.last().state_ok());
    }
}

/// Two distinct well-formed containers together never hold more oxygen
/// atoms than the whole table.
pub proof fn lemma_oxygen_pair_le_total(cs: Seq<Container>, i: int, j: int)
    requires
        states_ok(cs),
        0 <= i < cs.len(),
        0 <= j < cs.len(),
        i != j,
    ensures
        cs[i].oxygen() + cs[j].oxygen() <= total_oxygen(cs),
    decreases cs.len(),
{
    assert forall|k: int| 0 <= k < cs.drop_last().len() implies (
    #[trigger] cs.drop_last()[k]).state_ok() by {
        assert(cs.drop_last()[k] == cs[k]);
    }
    if j == cs.len() - 1 {
        lemma_oxygen_le_total(cs.drop_last(), i);
        assert(cs.drop_last()[i] == cs[i]);
        assert(cs.last() == cs[j]);
    } else if i == cs.len() - 1 {
        lemma_oxygen_le_total(cs.drop_last(), j);
        assert(cs.drop_last()[j] == cs[j]);
        assert(cs.last() == cs[i]);
    } else {
        lemma_oxygen_pair_le_total(cs.drop_last(), i, j);
        assert(cs.drop_last()[i] == cs[i]);
        assert(cs.drop_last()[j] == cs[j]);
        assert(cs.last().state_ok());
    }
}

/// Replacing one container changes the oxygen total by exactly the
/// difference between the new and old containers' oxygen.
pub proof fn lemma_total_oxygen_update(cs: Seq<Container>, i: int, c: Container)
    requires
        0 <= i < cs.len(),
    ensures
        total_oxygen(cs.update(i, c)) == total_oxygen(cs) - cs[i].oxygen() + c.oxygen(),
    decreases cs.len(),
{
    let u = cs.update(i, c);
    if i == cs.len() - 1 {
        assert(u.drop_last() =~= cs.drop_last());
        assert(u.last() == c);
    } else {
        assert(u.drop_last() =~= cs.drop_last().update(i, c));
        assert(u.last() == cs.last());
        lemma_total_oxygen_update(cs.drop_last(), i, c);
        assert(cs.drop_last()[i] == cs[i]);
    }
}

/// Appending a container adds exactly its oxygen to the total.
pub proof fn lemma_total_oxygen_push(cs: Seq<Container>, c: Container)
    ensures
        total_oxygen(cs.push(c)) == total_oxygen(cs) + c.oxygen(),
{
    assert(cs.push(c).drop_last() =~= cs);
    assert(cs.push(c).last() == c);
}

/// One reaction step keeps the table well formed, conserves the oxygen
/// total, and leaves every container's volume and children untouched.
/// When the reaction is feasible, every post-state amount also fits in
/// the amount type, because the conserved, bounded oxygen total
/// dominates each amount.
pub proof fn lemma_reaction_step(cs: Seq<Container>, r: Reaction)
    requires
        states_ok(cs),
        total_oxygen(cs) <= i64::MAX,
        reaction_ok(r, cs.len() as int),
    ensures
        apply_reaction(cs, r).len() == cs.len(),
        states_ok(apply_reaction(cs, r)),
        total_oxygen(apply_reaction(cs, r)) == total_oxygen(cs),
        forall|i: int|
            0 <= i < cs.len() ==> (#[trigger] apply_reaction(cs, r)[i]).volume == cs[i].volume,
        forall|i: int|
            0 <= i < cs.len() ==> (#[trigger] apply_reaction(cs, r)[i]).children == cs[i].children,
        reaction_feasible(cs[r.container.spec_index()], r) ==> {
            let c = cs[r.container.spec_index()];
            &&& c.gas.o2 + r.gas_delta.o2 <= i64::MAX
            &&& c.gas.co2 + r.gas_delta.co2 <= i64::MAX
            &&& c.gas.co + r.gas_delta.co <= i64::MAX
            &&& c.gas.h2o + r.gas_delta.h2o <= i64::MAX
            &&& c.fluid.h2o + r.fluid_delta.h2o <= i64::MAX
            &&& c.solid.ch2o + r.solid_delta.ch2o <= i64::MAX
        },
{
    let idx = r.container.spec_index();
    let c = cs[idx];
    if reaction_feasible(c, r) {
        let new_o2 = c.gas.o2 + r.gas_delta.o2;
        let new_co2 = c.gas.co2 + r.gas_delta.co2;
        let new_co = c.gas.co + r.gas_delta.co;
        let new_gh2o = c.gas.h2o + r.gas_delta.h2o;
        let new_fh2o = c.fluid.h2o + r.fluid_delta.h2o;
        let new_ch2o = c.solid.ch2o + r.solid_delta.ch2o;
        // The delta is balanced, so the post-state holds exactly the
        // container's oxygen; with all six amounts non-negative and each
        // species carrying at least one oxygen atom, every amount is
        // bounded by the table total.
        assert(2 * new_o2 + 2 * new_co2 + new_co + new_gh2o + new_fh2o + new_ch2o == c.oxygen());
        lemma_oxygen_le_total(cs, idx);
        let c2 = container_after_reaction(c, r);
        assert(c2.gas.o2 == new_o2 && c2.gas.co2 == new_co2 && c2.gas.co == new_co && c2.gas.h2o
            == new_gh2o && c2.fluid.h2o == new_fh2o && c2.solid.ch2o == new_ch2o);
        assert(c2.oxygen() == c.oxygen());
        lemma_total_oxygen_update(cs, idx, c2);
        assert forall|i: int| 0 <= i < cs.len() implies (
        #[trigger] apply_reaction(cs, r)[i]).state_ok() by {
            if i != idx {
                assert(apply_reaction(cs, r)[i] == cs[i]);
            }
        }
    }
}

/// One pipe step keeps the table well formed, conserves the oxygen
/// total, and leaves every container's volume and children untouched.
/// Each species flow is bounded by the pipe capacity and by what either
/// endpoint holds, and every post-state amount fits in the amount type.
pub proof fn lemma_pipe_step(cs: Seq<Container>, p: Pipe)
    requires
        states_ok(cs),
        total_oxygen(cs) <= i64::MAX,
        pipe_ok(p, cs.len() as int),
    ensures
        apply_pipe(cs, p).len() == cs.len(),
        states_ok(apply_pipe(cs, p)),
        total_oxygen(apply_pipe(cs, p)) == total_oxygen(cs),
        forall|i: int|
            0 <= i < cs.len() ==> (#[trigger] apply_pipe(cs, p)[i]).volume == cs[i].volume,
        forall|i: int|
            0 <= i < cs.len() ==> (#[trigger] apply_pipe(cs, p)[i]).children == cs[i].children,
        ({
            let a = cs[p.a.spec_index()];
            let b = cs[p.b.spec_index()];
            let f = pipe_flow(a, b, p.flow_rate);
            &&& -b.gas.o2 <= f.o2 <= a.gas.o2
            &&& -b.gas.co2 <= f.co2 <= a.gas.co2
            &&& -b.gas.co <= f.co <= a.gas.co
            &&& -b.gas.h2o <= f.h2o <= a.gas.h2o
            &&& -p.flow_rate.o2 <= f.o2 <= p.flow_rate.o2
            &&& -p.flow_rate.co2 <= f.co2 <= p.flow_rate.co2
            &&& -p.flow_rate.co <= f.co <= p.flow_rate.co
            &&& -p.flow_rate.h2o <= f.h2o <= p.flow_rate.h2o
            &&& a.gas.o2 - f.o2 <= i64::MAX
            &&& a.gas.co2 - f.co2 <= i64::MAX
            &&& a.gas.co - f.co <= i64::MAX
            &&& a.gas.h2o - f.h2o <= i64::MAX
            &&& b.gas.o2 + f.o2 <= i64::MAX
            &&& b.gas.co2 + f.co2 <= i64::MAX
            &&& b.gas.co + f.co <= i64::MAX
            &&& b.gas.h2o + f.h2o <= i64::MAX
        }),
{
    let ia = p.a.spec_index();
    let ib = p.b.spec_index();
    let a = cs[ia];
    let b = cs[ib];
    crate::flow::lemma_flow_amount_bounds(
        a.gas.o2 as int,
        a.volume.spec_value(),
        b.gas.o2 as int,
        b.volume.spec_value(),
        p.flow_rate.o2 as int,
    );
    crate::flow::lemma_flow_amount_bounds(
        a.gas.co2 as int,
        a.volume.spec_value(),
        b.gas.co2 as int,
        b.volume.spec_value(),
        p.flow_rate.co2 as int,
    );
    crate::flow::lemma_flow_amount_bounds(
        a.gas.co as int,
        a.volume.spec_value(),
        b.gas.co as int,
        b.volume.spec_value(),
        p.flow_rate.co as int,
    );
    crate::flow::lemma_flow_amount_bounds(
        a.gas.h2o as int,
        a.volume.spec_value(),
        b.gas.h2o as int,
        b.volume.spec_value(),
        p.flow_rate.h2o as int,
    );
    lemma_oxygen_pair_le_total(cs, ia, ib);
    let f = pipe_flow(a, b, p.flow_rate);
    let ca = Container { gas: gas_minus(a.gas, f), ..a };
    let cb = Container { gas: gas_plus(b.gas, f), ..b };
    assert(ca.oxygen() + cb.oxygen() == a.oxygen() + b.oxygen());
    lemma_total_oxygen_update(cs, ia, ca);
    lemma_total_oxygen_update(cs.update(ia, ca), ib, cb);
    assert(cs.update(ia, ca)[ib] == cs[ib]);
    assert forall|i: int| 0 <= i < cs.len() implies (#[trigger] apply_pipe(cs, p)[i]).state_ok() by {
        if i != ia && i != ib {
            assert(apply_pipe(cs, p)[i] == cs[i]);
        }
    }
}

/// Owns the container table, the pipe list, and the reaction list, and
/// drives them one discrete time step at a time.
#[derive(Debug)]
pub struct Engine {
    containers: Vec<Container>,
    pipes: Vec<Pipe>,
    reactions: Vec<Reaction>,
    root: ContainerId,
}

/// The container table left by one tick: all reactions in registration
/// order, then all pipe flows in registration order.
pub open spec fn spec_tick(e: Engine) -> Seq<Container> {
    apply_pipes(
        apply_reactions(e.spec_containers(), e.spec_reactions(), e.spec_reactions().len() as int),
        e.spec_pipes(),
        e.spec_pipes().len() as int,
    )
}

impl Engine {
    pub closed spec fn spec_containers(self) -> Seq<Container> {
        self.containers@
    }

    pub closed spec fn spec_pipes(self) -> Seq<Pipe> {
        self.pipes@
    }

    pub closed spec fn spec_reactions(self) -> Seq<Reaction> {
        self.reactions@
    }

    pub closed spec fn spec_root(self) -> ContainerId {
        self.root
    }

    /// The engine's invariant: the root is a valid id, every container
    /// is well formed with valid child ids, every pipe and reaction
    /// addresses valid containers, every reaction is atom-balanced, and
    /// the table-wide oxygen total fits in the amount type, which bounds
    /// every individual amount the tick arithmetic can produce.
    pub open spec fn wf(self) -> bool {
        &&& 0 <= self.spec_root().spec_index() < self.spec_containers().len()
        &&& states_ok(self.spec_containers())
        &&& children_ok(self.spec_containers(), self.spec_containers().len() as int)
        &&& pipes_ok(self.spec_pipes(), self.spec_containers().len() as int)
        &&& reactions_ok(self.spec_reactions(), self.spec_containers().len() as int)
        &&& total_oxygen(self.spec_containers()) <= i64::MAX
    }

    /// Creates an engine holding one root container.
    pub fn new(volume: Volume, gas: Gas, fluid: Fluid, solid: Solid) -> (e: Engine)
        requires
            volume.spec_value() > 0,
            gas.spec_non_negative(),
            fluid.h2o >= 0,
            solid.ch2o >= 0,
            oxygen_atoms(gas, fluid, solid) <= i64::MAX,
        ensures
            e.wf(),
            e.spec_containers().len() == 1,
            e.spec_containers()[0].volume == volume,
            e.spec_containers()[0].gas == gas,
            e.spec_containers()[0].fluid == fluid,
            e.spec_containers()[0].solid == solid,
            e.spec_containers()[0].children@ =~= Seq::<ContainerId>::empty(),
            e.spec_root().spec_index() == 0,
            e.spec_pipes() =~= Seq::<Pipe>::empty(),
            e.spec_reactions() =~= Seq::<Reaction>::empty(),
            total_oxygen(e.spec_containers()) == oxygen_atoms(gas, fluid, solid),
    {
        let mut engine = Engine {
            containers: Vec::new(),
            pipes: Vec::new(),
            reactions: Vec::new(),
            root: ContainerId(0),
        };
        let id = engine.insert_container(volume, gas, fluid, solid);
        engine.root = id;
        engine
    }

    /// The id of the engine's root container.
    pub fn root(&self) -> (id: ContainerId)
        ensures
            id == self.spec_root(),
    {
        self.root
    }

    fn insert_container(&mut self, volume: Volume, gas: Gas, fluid: Fluid, solid: Solid) -> (id:
        ContainerId)
        ensures
            final(self).spec_containers().len() == old(self).spec_containers().len() + 1,
            forall|i: int|
                0 <= i < old(self).spec_containers().len() ==> final(self).spec_containers()[i]
                    == old(self).spec_containers()[i],
            final(self).spec_containers().last().volume == volume,
            final(self).spec_containers().last().gas == gas,
            final(self).spec_containers().last().fluid == fluid,
            final(self).spec_containers().last().solid == solid,
            final(self).spec_containers().last().children@ =~= Seq::<ContainerId>::empty(),
            id.spec_index() == old(self).spec_containers().len(),
            final(self).spec_pipes() == old(self).spec_pipes(),
            final(self).spec_reactions() == old(self).spec_reactions(),
            final(self).spec_root() == old(self).spec_root(),
            total_oxygen(final(self).spec_containers()) == total_oxygen(old(self).spec_containers())
                + oxygen_atoms(gas, fluid, solid),
    {
        let id = ContainerId(self.containers.len());
        let container = Container::new(volume, gas, fluid, solid);
        proof {
            lemma_total_oxygen_push(self.containers@, container);
        }
        self.containers.push(container);
        id
    }

    /// Appends a new container as a child of `parent` and returns its
    /// id. The new container starts as a leaf, so the table stays a
    /// tree.
    pub fn add_container(
        &mut self,
        parent: ContainerId,
        volume: Volume,
        gas: Gas,
        fluid: Fluid,
        solid: Solid,
    ) -> (id: ContainerId)
        requires
            old(self).wf(),
            0 <= parent.spec_index() < old(self).spec_containers().len(),
            volume.spec_value() > 0,
            gas.spec_non_negative(),
            fluid.h2o >= 0,
            solid.ch2o >= 0,
            total_oxygen(old(self).spec_containers()) + oxygen_atoms(gas, fluid, solid)
                <= i64::MAX,
        ensures
            final(self).wf(),
            id.spec_index() == old(self).spec_containers().len(),
            final(self).spec_containers().len() == old(self).spec_containers().len() + 1,
            forall|i: int|
                0 <= i < old(self).spec_containers().len() && i != parent.spec_index()
                    ==> final(self).spec_containers()[i] == old(self).spec_containers()[i],
            ({
                let c = final(self).spec_containers()[id.spec_index()];
                &&& c.volume == volume
                &&& c.gas == gas
                &&& c.fluid == fluid
                &&& c.solid == solid
                &&& c.children@ =~= Seq::<ContainerId>::empty()
            }),
            ({
                let p_old = old(self).spec_containers()[parent.spec_index()];
                let p_new = final(self).spec_containers()[parent.spec_index()];
                &&& p_new.volume == p_old.volume
                &&& p_new.gas == p_old.gas
                &&& p_new.fluid == p_old.fluid
                &&& p_new.solid == p_old.solid
                &&& p_new.children@ =~= p_old.children@.push(id)
            }),
            final(self).spec_pipes() == old(self).spec_pipes(),
            final(self).spec_reactions() == old(self).spec_reactions(),
            final(self).spec_root() == old(self).spec_root(),
            total_oxygen(final(self).spec_containers()) == total_oxygen(
                old(self).spec_containers(),
            ) + oxygen_atoms(gas, fluid, solid),
    {
        let ghost cs0 = self.containers@;
        let id = self.insert_container(volume, gas, fluid, solid);
        let ghost cs1 = self.containers@;
        let parent_index = parent.index();
        let parent_container = &mut self.containers[parent_index];
        parent_container.children.push(id);
        proof {
            let pi = parent.spec_index();
            let cs2 = self.containers@;
            assert(cs2 == cs1.update(pi, cs2[pi]));
            lemma_total_oxygen_update(cs1, pi, cs2[pi]);
            assert(cs2[pi].oxygen() == cs1[pi].oxygen());
            assert forall|i: int| 0 <= i < cs0.len() && i != pi implies cs2[i] == cs0[i] by {
                assert(cs2[i] == cs1[i]);
            }
            assert(cs2.last() == cs1.last());
            lemma_wf_after_add(cs0, cs2, pi, id);
            assert forall|i: int| 0 <= i < self.pipes@.len() implies pipe_ok(
                #[trigger] self.pipes@[i],
                cs2.len() as int,
            ) by {
                assert(pipe_ok(self.pipes@[i], cs0.len() as int));
            }
            assert forall|i: int| 0 <= i < self.reactions@.len() implies reaction_ok(
                #[trigger] self.reactions@[i],
                cs2.len() as int,
            ) by {
                assert(reaction_ok(self.reactions@[i], cs0.len() as int));
            }
        }
        id
    }

    /// A read-only view of one container.
    pub fn container(&self, id: ContainerId) -> (c: &Container)
        requires
            0 <= id.spec_index() < self.spec_containers().len(),
        ensures
            *c == self.spec_containers()[id.spec_index()],
    {
        &self.containers[id.index()]
    }

    /// A mutable view of one container. The engine invariant speaks of
    /// the whole table, so a caller that mutates through this handle
    /// must re-establish `wf` before the next tick.
    pub fn container_mut(&mut self, id: ContainerId) -> (c: &mut Container)
        requires
            0 <= id.spec_index() < old(self).spec_containers().len(),
        ensures
            *c == old(self).spec_containers()[id.spec_index()],
            final(self).spec_containers() == old(self).spec_containers().update(
                id.spec_index(),
                *final(c),
            ),
            final(self).spec_pipes() == old(self).spec_pipes(),
            final(self).spec_reactions() == old(self).spec_reactions(),
            final(self).spec_root() == old(self).spec_root(),
    {
        &mut self.containers[id.index()]
    }

    /// The registered pipes, in registration order.
    pub fn pipes(&self) -> (ps: &[Pipe])
        ensures
            ps@ == self.spec_pipes(),
    {
        self.pipes.as_slice()
    }

    /// Registers a pipe between two distinct containers.
    pub fn add_pipe(&mut self, a: ContainerId, b: ContainerId, flow_rate: Gas)
        requires
            old(self).wf(),
            0 <= a.spec_index() < old(self).spec_containers().len(),
            0 <= b.spec_index() < old(self).spec_containers().len(),
            a.spec_index() != b.spec_index(),
            flow_rate.spec_non_negative(),
        ensures
            final(self).wf(),
            final(self).spec_pipes() == old(self).spec_pipes().push(Pipe { a, b, flow_rate }),
            final(self).spec_containers() == old(self).spec_containers(),
            final(self).spec_reactions() == old(self).spec_reactions(),
            final(self).spec_root() == old(self).spec_root(),
    {
        self.pipes.push(Pipe::new(a, b, flow_rate));
    }

    /// Registers a reaction. The atom-balance identity is the caller's
    /// obligation here, at the registration boundary; it is never
    /// re-checked per tick.
    pub fn add_reaction(
        &mut self,
        container: ContainerId,
        gas_delta: Gas,
        fluid_delta: Fluid,
        solid_delta: Solid,
    )
        requires
            old(self).wf(),
            0 <= container.spec_index() < old(self).spec_containers().len(),
            balanced(gas_delta, fluid_delta, solid_delta),
        ensures
            final(self).wf(),
            final(self).spec_reactions() == old(self).spec_reactions().push(
                Reaction { container, gas_delta, fluid_delta, solid_delta },
            ),
            final(self).spec_containers() == old(self).spec_containers(),
            final(self).spec_pipes() == old(self).spec_pipes(),
            final(self).spec_root() == old(self).spec_root(),
    {
        let reaction = Reaction::new(container, gas_delta, fluid_delta, solid_delta);
        self.reactions.push(reaction);
    }

    /// One discrete time step: every reaction in registration order,
    /// each skipped atomically when infeasible on any reservoir
    /// category, then every pipe flow in registration order. Never
    /// fails, and preserves the engine invariant.
    pub fn tick(&mut self)
        requires
            old(self).wf(),
        ensures
            final(self).wf(),
            final(self).spec_containers() == spec_tick(*old(self)),
            final(self).spec_pipes() == old(self).spec_pipes(),
            final(self).spec_reactions() == old(self).spec_reactions(),
            final(self).spec_root() == old(self).spec_root(),
            total_oxygen(final(self).spec_containers()) == total_oxygen(
                old(self).spec_containers(),
            ),
    {
        let ghost cs0 = self.containers@;
        let ghost rs = self.reactions@;
        let ghost ps = self.pipes@;
        let ghost root0 = self.root;

        let reaction_count = self.reactions.len();
        let mut index: usize = 0;
        while index < reaction_count
            invariant
                index <= reaction_count,
                reaction_count == rs.len(),
                self.reactions@ == rs,
                self.pipes@ == ps,
                self.root == root0,
                self.containers@ == apply_reactions(cs0, rs, index as int),
                self.containers@.len() == cs0.len(),
                states_ok(self.containers@),
                total_oxygen(self.containers@) == total_oxygen(cs0),
                total_oxygen(cs0) <= i64::MAX,
                reactions_ok(rs, cs0.len() as int),
                forall|i: int|
                    0 <= i < cs0.len() ==> (#[trigger] self.containers@[i]).volume
                        == cs0[i].volume,
                forall|i: int|
                    0 <= i < cs0.len() ==> (#[trigger] self.containers@[i]).children
                        == cs0[i].children,
            decreases reaction_count - index,
        {
            let reaction = self.reactions[index];
            let ghost pre = self.containers@;
            proof {
                assert(reaction_ok(rs[index as int], cs0.len() as int));
                lemma_reaction_step(pre, reaction);
            }
            let container_index = reaction.container.index();
            let c_ref = &self.containers[container_index];
            let feasible = c_ref.gas.can_apply_delta(reaction.gas_delta)
                && c_ref.fluid.can_apply_delta(reaction.fluid_delta)
                && c_ref.solid.can_apply_delta(reaction.solid_delta);
            if feasible {
                let c = &mut self.containers[container_index];
                c.gas.apply_delta(reaction.gas_delta);
                c.fluid.apply_delta(reaction.fluid_delta);
                c.solid.apply_delta(reaction.solid_delta);
                proof {
                    let ci = container_index as int;
                    assert(self.containers@[ci] == container_after_reaction(pre[ci], reaction));
                    assert(self.containers@ =~= apply_reaction(pre, reaction));
                }
            } else {
                proof {
                    assert(apply_reaction(pre, reaction) == pre);
                }
            }
            index = index + 1;
        }

        let ghost cs_mid = self.containers@;
        let pipe_count = self.pipes.len();
        let mut pipe_index: usize = 0;
        while pipe_index < pipe_count
            invariant
                pipe_index <= pipe_count,
                pipe_count == ps.len(),
                self.reactions@ == rs,
                self.pipes@ == ps,
                self.root == root0,
                self.containers@ == apply_pipes(cs_mid, ps, pipe_index as int),
                self.containers@.len() == cs0.len(),
                states_ok(self.containers@),
                total_oxygen(self.containers@) == total_oxygen(cs0),
                total_oxygen(cs0) <= i64::MAX,
                pipes_ok(ps, cs0.len() as int),
                forall|i: int|
                    0 <= i < cs0.len() ==> (#[trigger] self.containers@[i]).volume
                        == cs0[i].volume,
                forall|i: int|
                    0 <= i < cs0.len() ==> (#[trigger] self.containers@[i]).children
                        == cs0[i].children,
            decreases pipe_count - pipe_index,
        {
            let pipe = self.pipes[pipe_index];
            let ghost pre = self.containers@;
            proof {
                assert(pipe_ok(ps[pipe_index as int], cs0.len() as int));
                lemma_pipe_step(pre, pipe);
            }
            self.apply_pipe_flow(pipe);
            pipe_index = pipe_index + 1;
        }
        proof {
            lemma_children_preserved(cs0, self.containers@);
        }
    }

    /// Applies one pipe's four species flows to its two endpoints
    /// together: what leaves A enters B. The endpoints are mutated one
    /// after the other by index, never through two live handles, which
    /// is sound because a pipe's endpoints are distinct.
    fn apply_pipe_flow(&mut self, pipe: Pipe)
        requires
            states_ok(old(self).spec_containers()),
            total_oxygen(old(self).spec_containers()) <= i64::MAX,
            pipe_ok(pipe, old(self).spec_containers().len() as int),
        ensures
            final(self).spec_containers() == apply_pipe(old(self).spec_containers(), pipe),
            final(self).spec_pipes() == old(self).spec_pipes(),
            final(self).spec_reactions() == old(self).spec_reactions(),
            final(self).spec_root() == old(self).spec_root(),
    {
        let ghost cs0 = self.containers@;
        proof {
            lemma_pipe_step(cs0, pipe);
        }
        let a_index = pipe.a.index();
        let b_index = pipe.b.index();
        let container_a = &self.containers[a_index];
        let a_gas = container_a.gas;
        let a_volume = container_a.volume;
        let container_b = &self.containers[b_index];
        let b_gas = container_b.gas;
        let b_volume = container_b.volume;

        let o2_flow = crate::flow::flow_amount(a_gas.o2, a_volume, b_gas.o2, b_volume, pipe.flow_rate.o2);
        let co2_flow = crate::flow::flow_amount(
            a_gas.co2,
            a_volume,
            b_gas.co2,
            b_volume,
            pipe.flow_rate.co2,
        );
        let co_flow = crate::flow::flow_amount(a_gas.co, a_volume, b_gas.co, b_volume, pipe.flow_rate.co);
        let h2o_flow = crate::flow::flow_amount(
            a_gas.h2o,
            a_volume,
            b_gas.h2o,
            b_volume,
            pipe.flow_rate.h2o,
        );
        let ghost f = pipe_flow(cs0[pipe.a.spec_index()], cs0[pipe.b.spec_index()], pipe.flow_rate);
        proof {
            assert(o2_flow == f.o2 && co2_flow == f.co2 && co_flow == f.co && h2o_flow == f.h2o);
        }

        let delta = Gas { o2: -o2_flow, co2: -co2_flow, co: -co_flow, h2o: -h2o_flow };
        let inverse = Gas { o2: o2_flow, co2: co2_flow, co: co_flow, h2o: h2o_flow };

        let container_a = &mut self.containers[a_index];
        container_a.gas.apply_delta(delta);
        let ghost cs1 = self.containers@;
        let container_b = &mut self.containers[b_index];
        container_b.gas.apply_delta(inverse);
        proof {
            let ia = pipe.a.spec_index();
            let ib = pipe.b.spec_index();
            assert(cs1[ib] == cs0[ib]);
            assert(self.containers@[ia] == (Container { gas: gas_minus(cs0[ia].gas, f), ..cs0[ia] }));
            assert(self.containers@[ib] == (Container { gas: gas_plus(cs0[ib].gas, f), ..cs0[ib] }));
            assert(self.containers@ =~= apply_pipe(cs0, pipe));
        }
    }
}

/// After a tick the children lists are untouched pointwise, so
/// the structural half of the invariant transfers from the pre-state.
proof fn lemma_children_preserved(cs0: Seq<Container>, cs2: Seq<Container>)
    requires
        cs2.len() == cs0.len(),
        children_ok(cs0, cs0.len() as int),
        forall|i: int| 0 <= i < cs0.len() ==> (#[trigger] cs2[i]).children == cs0[i].children,
    ensures
        children_ok(cs2, cs2.len() as int),
{
    assert forall|i: int, j: int|
        0 <= i < cs2.len() && 0 <= j < cs2[i].children@.len() implies 0 <= (
    #[trigger] cs2[i].children@[j]).spec_index() < cs2.len() by {
        assert(cs2[i].children == cs0[i].children);
        assert(cs0[i].children@[j].spec_index() < cs0.len());
    }
}

/// In a well-formed engine every container is well formed and its gas
/// amounts sum within the amount type, because the bounded oxygen total
/// dominates the sum; this discharges the preconditions of `pressure`.
pub proof fn lemma_wf_container_sum_bounded(e: Engine, i: int)
    requires
        e.wf(),
        0 <= i < e.spec_containers().len(),
    ensures
        e.spec_containers()[i].state_ok(),
        e.spec_containers()[i].gas.o2 + e.spec_containers()[i].gas.co2
            + e.spec_containers()[i].gas.co + e.spec_containers()[i].gas.h2o <= i64::MAX,
{
    lemma_oxygen_le_total(e.spec_containers(), i);
}

/// The engine invariant survives appending a leaf container and linking
/// it to its parent.
proof fn lemma_wf_after_add(cs0: Seq<Container>, cs2: Seq<Container>, parent: int, id: ContainerId)
    requires
        states_ok(cs0),
        children_ok(cs0, cs0.len() as int),
        0 <= parent < cs0.len(),
        id.spec_index() == cs0.len(),
        cs2.len() == cs0.len() + 1,
        forall|i: int| 0 <= i < cs0.len() && i != parent ==> cs2[i] == cs0[i],
        cs2[parent].volume == cs0[parent].volume,
        cs2[parent].gas == cs0[parent].gas,
        cs2[parent].fluid == cs0[parent].fluid,
        cs2[parent].solid == cs0[parent].solid,
        cs2[parent].children@ =~= cs0[parent].children@.push(id),
        cs2.last().state_ok(),
        cs2.last().children@ =~= Seq::<ContainerId>::empty(),
        parent != cs0.len(),
    ensures
        states_ok(cs2),
        children_ok(cs2, cs2.len() as int),
{
    assert forall|i: int| 0 <= i < cs2.len() implies (#[trigger] cs2[i]).state_ok() by {
        if i == cs0.len() {
            assert(cs2[i] == cs2.last());
        } else if i != parent {
            assert(cs2[i] == cs0[i]);
        }
    }
    assert forall|i: int, j: int|
        0 <= i < cs2.len() && 0 <= j < cs2[i].children@.len() implies 0 <= (
    #[trigger] cs2[i].children@[j]).spec_index() < cs2.len() by {
        if i == cs0.len() {
            assert(cs2[i] == cs2.last());
        } else if i == parent {
            if j < cs0[parent].children@.len() {
                assert(cs2[i].children@[j] == cs0[parent].children@[j]);
            } else {
                assert(cs2[i].children@[j] == id);
            }
        } else {
            assert(cs2[i] == cs0[i]);
        }
    }
}

} // verus!
