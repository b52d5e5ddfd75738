use dustfall::engine::{Container, Engine};
use dustfall::quantity::{Fluid, Gas, Solid, Volume};
use dustfall::recipes::{add_human, add_moxie, add_photosynthesis, thin_atmosphere};

/// Oxygen atoms held by one container: 2 per O2 and CO2, 1 per CO,
/// water (either phase), and CH2O unit.
fn oxygen_atoms_of(c: &Container) -> i64 {
    2 * c.gas.o2 + 2 * c.gas.co2 + c.gas.co + c.gas.h2o + c.fluid.h2o + c.solid.ch2o
}

fn empty_engine(volume: i64) -> Engine {
    Engine::new(Volume::new(volume), Gas::zero(), Fluid::zero(), Solid::zero())
}

#[test]
fn new_engine_has_one_root_container() {
    let engine = empty_engine(1000);
    let root = engine.root();
    assert_eq!(root.index(), 0);
    let c = engine.container(root);
    assert_eq!(c.volume.value(), 1000);
    assert_eq!(c.gas, Gas::zero());
    assert_eq!(c.children.len(), 0);
    assert_eq!(engine.pipes().len(), 0);
}

#[test]
fn add_container_appends_and_links_child() {
    let mut engine = empty_engine(1000);
    let root = engine.root();
    let child = engine.add_container(
        root,
        Volume::new(100),
        Gas { o2: 7, co2: 0, co: 0, h2o: 0 },
        Fluid { h2o: 3 },
        Solid { ch2o: 5 },
    );
    assert_eq!(child.index(), 1);
    assert_eq!(engine.container(root).children, vec![child]);
    let c = engine.container(child);
    assert_eq!(c.volume.value(), 100);
    assert_eq!(c.gas.o2, 7);
    assert_eq!(c.fluid.h2o, 3);
    assert_eq!(c.solid.ch2o, 5);
    assert_eq!(c.children.len(), 0);
}

#[test]
fn container_mut_gives_a_writable_handle() {
    let mut engine = empty_engine(10);
    let root = engine.root();
    engine.container_mut(root).gas.o2 = 42;
    assert_eq!(engine.container(root).gas.o2, 42);
}

#[test]
fn add_pipe_records_endpoints_and_rate() {
    let mut engine = empty_engine(1000);
    let root = engine.root();
    let child = engine.add_container(root, Volume::new(100), Gas::zero(), Fluid::zero(), Solid::zero());
    let rate = Gas { o2: 0, co2: 0, co: 2, h2o: 0 };
    engine.add_pipe(child, root, rate);
    let pipes = engine.pipes();
    assert_eq!(pipes.len(), 1);
    assert_eq!(pipes[0].a, child);
    assert_eq!(pipes[0].b, root);
    assert_eq!(pipes[0].flow_rate, rate);
}

#[test]
fn respiration_scenario_single_tick_and_exhaustion() {
    // A 100-volume child of a 1000-volume root holds O2 2000 / CO2 8000
    // and 500 biomass; a consumer burns 3 O2 per tick.
    let mut engine = empty_engine(1000);
    let root = engine.root();
    let child = engine.add_container(
        root,
        Volume::new(100),
        Gas { o2: 2000, co2: 8000, co: 0, h2o: 0 },
        Fluid::zero(),
        Solid { ch2o: 500 },
    );
    add_human(&mut engine, child, 3);

    engine.tick();
    {
        let c = engine.container(child);
        assert_eq!(c.gas.o2, 1997);
        assert_eq!(c.gas.co2, 8003);
        assert_eq!(c.gas.h2o, 3);
        assert_eq!(c.solid.ch2o, 497);
    }

    // Biomass runs out after 166 full applications (500 = 3*166 + 2),
    // and from then on the reaction halts: O2 and CO2 stop moving.
    for _ in 1..200 {
        engine.tick();
    }
    let c = engine.container(child);
    assert_eq!(c.solid.ch2o, 2);
    assert_eq!(c.gas.o2, 2000 - 3 * 166);
    assert_eq!(c.gas.co2, 8000 + 3 * 166);
    assert_eq!(c.gas.h2o, 3 * 166);
}

#[test]
fn reaction_tick_conserves_oxygen_atoms() {
    let mut engine = empty_engine(1000);
    let root = engine.root();
    let child = engine.add_container(
        root,
        Volume::new(100),
        Gas { o2: 2000, co2: 8000, co: 0, h2o: 0 },
        Fluid::zero(),
        Solid { ch2o: 500 },
    );
    add_human(&mut engine, child, 3);
    let before = oxygen_atoms_of(engine.container(child)) + oxygen_atoms_of(engine.container(root));
    engine.tick();
    let after = oxygen_atoms_of(engine.container(child)) + oxygen_atoms_of(engine.container(root));
    assert_eq!(before, after);
}

#[test]
fn infeasible_reaction_skips_atomically() {
    // Plenty of O2 but no biomass: the gas check alone would pass, yet
    // nothing at all may change.
    let mut engine = empty_engine(1000);
    let root = engine.root();
    let child = engine.add_container(
        root,
        Volume::new(100),
        Gas { o2: 2000, co2: 8000, co: 0, h2o: 0 },
        Fluid::zero(),
        Solid::zero(),
    );
    add_human(&mut engine, child, 3);
    engine.tick();
    let c = engine.container(child);
    assert_eq!(c.gas, Gas { o2: 2000, co2: 8000, co: 0, h2o: 0 });
    assert_eq!(c.fluid.h2o, 0);
    assert_eq!(c.solid.ch2o, 0);
}

#[test]
fn zero_reaction_is_accepted_and_changes_nothing() {
    let mut engine = empty_engine(1000);
    let root = engine.root();
    let child = engine.add_container(
        root,
        Volume::new(100),
        Gas { o2: 5, co2: 6, co: 7, h2o: 8 },
        Fluid { h2o: 9 },
        Solid { ch2o: 10 },
    );
    engine.add_reaction(child, Gas::zero(), Fluid::zero(), Solid::zero());
    engine.tick();
    let c = engine.container(child);
    assert_eq!(c.gas, Gas { o2: 5, co2: 6, co: 7, h2o: 8 });
    assert_eq!(c.fluid.h2o, 9);
    assert_eq!(c.solid.ch2o, 10);
}

#[test]
fn pipe_equalizes_partial_pressures_in_one_tick() {
    // Volumes 100 and 50 with O2 1000 and 0: one tick moves 333 moles,
    // leaving equal partial pressures 667/100 == 333/50 == 6.
    let mut engine = Engine::new(
        Volume::new(100),
        Gas { o2: 1000, co2: 0, co: 0, h2o: 0 },
        Fluid::zero(),
        Solid::zero(),
    );
    let root = engine.root();
    let other = engine.add_container(root, Volume::new(50), Gas::zero(), Fluid::zero(), Solid::zero());
    engine.add_pipe(root, other, Gas { o2: 1000, co2: 0, co: 0, h2o: 0 });
    engine.tick();
    let a = engine.container(root);
    let b = engine.container(other);
    assert_eq!(a.gas.o2, 667);
    assert_eq!(b.gas.o2, 333);
    assert_eq!(a.gas.o2 / 100, b.gas.o2 / 50);
    assert_eq!(a.pressure(), b.pressure());
}

#[test]
fn pipe_flow_is_bounded_by_flow_rate() {
    let mut engine = Engine::new(
        Volume::new(100),
        Gas { o2: 1000, co2: 0, co: 0, h2o: 0 },
        Fluid::zero(),
        Solid::zero(),
    );
    let root = engine.root();
    let other = engine.add_container(root, Volume::new(50), Gas::zero(), Fluid::zero(), Solid::zero());
    engine.add_pipe(root, other, Gas { o2: 10, co2: 0, co: 0, h2o: 0 });
    engine.tick();
    assert_eq!(engine.container(root).gas.o2, 990);
    assert_eq!(engine.container(other).gas.o2, 10);
}

#[test]
fn pipe_flow_only_moves_species_with_capacity() {
    // The pipe vents CO only: O2 stays put even though its pressures
    // differ.
    let mut engine = Engine::new(
        Volume::new(100),
        Gas { o2: 1000, co2: 0, co: 900, h2o: 0 },
        Fluid::zero(),
        Solid::zero(),
    );
    let root = engine.root();
    let other = engine.add_container(root, Volume::new(50), Gas::zero(), Fluid::zero(), Solid::zero());
    engine.add_pipe(root, other, Gas { o2: 0, co2: 0, co: 500, h2o: 0 });
    engine.tick();
    assert_eq!(engine.container(root).gas.o2, 1000);
    assert_eq!(engine.container(other).gas.o2, 0);
    assert_eq!(engine.container(root).gas.co, 600);
    assert_eq!(engine.container(other).gas.co, 300);
}

#[test]
fn pipe_flow_conserves_each_species() {
    let mut engine = Engine::new(
        Volume::new(100),
        Gas { o2: 123, co2: 456, co: 789, h2o: 1011 },
        Fluid::zero(),
        Solid::zero(),
    );
    let root = engine.root();
    let other = engine.add_container(
        root,
        Volume::new(37),
        Gas { o2: 5, co2: 1000, co: 0, h2o: 3 },
        Fluid::zero(),
        Solid::zero(),
    );
    engine.add_pipe(root, other, Gas { o2: 50, co2: 50, co: 50, h2o: 50 });
    engine.tick();
    let a = engine.container(root).gas;
    let b = engine.container(other).gas;
    assert_eq!(a.o2 + b.o2, 128);
    assert_eq!(a.co2 + b.co2, 1456);
    assert_eq!(a.co + b.co, 789);
    assert_eq!(a.h2o + b.h2o, 1014);
    assert!(a.is_non_negative());
    assert!(b.is_non_negative());
}

#[test]
fn reactions_run_before_pipes_in_a_tick() {
    // The converter turns CO2 into CO inside the habitat, and the
    // CO-only pipe vents some of it to the root in the same tick.
    let mut engine = empty_engine(1000);
    let root = engine.root();
    let habitat = engine.add_container(
        root,
        Volume::new(100),
        Gas { o2: 0, co2: 10, co: 0, h2o: 0 },
        Fluid::zero(),
        Solid::zero(),
    );
    add_moxie(&mut engine, habitat, 2);
    engine.add_pipe(habitat, root, Gas { o2: 0, co2: 0, co: 2, h2o: 0 });
    engine.tick();
    // After the reaction the habitat held CO 2; the pipe then moved
    // trunc((2*1000 - 0*100) / 1100) = 1 mole.
    assert_eq!(engine.container(habitat).gas.co, 1);
    assert_eq!(engine.container(root).gas.co, 1);
    assert_eq!(engine.container(habitat).gas.co2, 8);
    assert_eq!(engine.container(habitat).gas.o2, 1);
}

#[test]
fn moxie_halts_when_co2_is_exhausted() {
    let mut engine = empty_engine(1000);
    let root = engine.root();
    let child = engine.add_container(
        root,
        Volume::new(100),
        Gas { o2: 0, co2: 10, co: 0, h2o: 0 },
        Fluid::zero(),
        Solid::zero(),
    );
    add_moxie(&mut engine, child, 2);
    for _ in 0..6 {
        engine.tick();
    }
    let c = engine.container(child);
    assert_eq!(c.gas.co2, 0);
    assert_eq!(c.gas.co, 10);
    assert_eq!(c.gas.o2, 5);
}

#[test]
fn photosynthesis_consumes_liquid_water() {
    let mut engine = empty_engine(1000);
    let root = engine.root();
    let child = engine.add_container(
        root,
        Volume::new(100),
        Gas { o2: 0, co2: 10, co: 0, h2o: 0 },
        Fluid { h2o: 10 },
        Solid::zero(),
    );
    add_photosynthesis(&mut engine, child, 2);
    engine.tick();
    let c = engine.container(child);
    assert_eq!(c.gas.o2, 2);
    assert_eq!(c.gas.co2, 8);
    assert_eq!(c.fluid.h2o, 8);
    assert_eq!(c.solid.ch2o, 2);
}

#[test]
fn later_reactions_observe_earlier_ones_in_the_same_tick() {
    // The consumer needs the O2 that photosynthesis frees this tick.
    let mut engine = empty_engine(1000);
    let root = engine.root();
    let child = engine.add_container(
        root,
        Volume::new(100),
        Gas { o2: 0, co2: 10, co: 0, h2o: 0 },
        Fluid { h2o: 10 },
        Solid { ch2o: 5 },
    );
    add_photosynthesis(&mut engine, child, 2);
    add_human(&mut engine, child, 2);
    engine.tick();
    let c = engine.container(child);
    // Photosynthesis: o2 0->2, co2 10->8, fluid 10->8, ch2o 5->7;
    // then respiration: o2 2->0, co2 8->10, gas h2o 0->2, ch2o 7->5.
    assert_eq!(c.gas.o2, 0);
    assert_eq!(c.gas.co2, 10);
    assert_eq!(c.gas.h2o, 2);
    assert_eq!(c.fluid.h2o, 8);
    assert_eq!(c.solid.ch2o, 5);
}

#[test]
fn thin_atmosphere_matches_mole_fractions() {
    // pv = 8 * 100 = 800: O2 = 800*13/10000 = 1, CO2 = 800*9532/10000 = 762.
    let g = thin_atmosphere(Volume::new(100), 8);
    assert_eq!(g.o2, 1);
    assert_eq!(g.co2, 762);
    assert_eq!(g.co, 0);
    assert_eq!(g.h2o, 0);
}

#[test]
fn tick_sequences_never_go_negative() {
    // Consumers, producers, and pipes together over many ticks: every
    // reservoir of every container stays non-negative throughout.
    let mut engine = Engine::new(
        Volume::new(1000),
        thin_atmosphere(Volume::new(1000), 8),
        Fluid::zero(),
        Solid::zero(),
    );
    let root = engine.root();
    let habitat = engine.add_container(
        root,
        Volume::new(100),
        Gas { o2: 50, co2: 20, co: 0, h2o: 0 },
        Fluid { h2o: 30 },
        Solid { ch2o: 40 },
    );
    add_human(&mut engine, habitat, 3);
    add_photosynthesis(&mut engine, habitat, 2);
    add_moxie(&mut engine, habitat, 2);
    engine.add_pipe(habitat, root, Gas { o2: 2, co2: 2, co: 2, h2o: 2 });
    for _ in 0..500 {
        engine.tick();
        for id in [root, habitat] {
            let c = engine.container(id);
            assert!(c.gas.is_non_negative());
            assert!(c.fluid.h2o >= 0);
            assert!(c.solid.ch2o >= 0);
        }
    }
}
