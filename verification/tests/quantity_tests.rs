use dustfall::quantity::{gas_from_parts, Fluid, Gas, Solid, Volume};
use dustfall::reaction::Reaction;
use dustfall::engine::{ContainerId, Engine};

fn engine_with_defaults() -> Engine {
    Engine::new(Volume::new(10), Gas::zero(), Fluid::zero(), Solid::zero())
}

fn root_id() -> ContainerId {
    engine_with_defaults().root()
}

#[test]
fn volume_round_trip() {
    let v = Volume::new(93_000_000_000_000);
    assert_eq!(v.value(), 93_000_000_000_000);
}

#[test]
fn gas_zero_is_all_zero() {
    let g = Gas::zero();
    assert_eq!(g.o2, 0);
    assert_eq!(g.co2, 0);
    assert_eq!(g.co, 0);
    assert_eq!(g.h2o, 0);
    assert!(g.is_non_negative());
}

#[test]
fn non_negativity_check_sees_each_field() {
    assert!(Gas { o2: 1, co2: 0, co: 5, h2o: 2 }.is_non_negative());
    assert!(!Gas { o2: 1, co2: -1, co: 5, h2o: 2 }.is_non_negative());
    assert!(!Gas { o2: -1, co2: 0, co: 0, h2o: 0 }.is_non_negative());
}

#[test]
fn partial_pressure_floors() {
    assert_eq!(Gas::partial_pressure(199, Volume::new(100)), 1);
    assert_eq!(Gas::partial_pressure(200, Volume::new(100)), 2);
    assert_eq!(Gas::partial_pressure(0, Volume::new(100)), 0);
}

#[test]
fn pressure_truncates_per_species() {
    // 199/100 + 99/100 = 1 + 0, not (199+99)/100 = 2.
    let g = Gas { o2: 199, co2: 99, co: 0, h2o: 0 };
    assert_eq!(g.pressure(Volume::new(100)), 1);
}

#[test]
fn pressure_sums_four_species() {
    let g = Gas { o2: 2000, co2: 8000, co: 100, h2o: 300 };
    assert_eq!(g.pressure(Volume::new(100)), 20 + 80 + 1 + 3);
}

#[test]
fn can_apply_delta_guards_each_species() {
    let g = Gas { o2: 3, co2: 0, co: 0, h2o: 0 };
    assert!(g.can_apply_delta(Gas { o2: -3, co2: 3, co: 0, h2o: 0 }));
    assert!(!g.can_apply_delta(Gas { o2: -4, co2: 3, co: 0, h2o: 0 }));
    assert!(!g.can_apply_delta(Gas { o2: 0, co2: -1, co: 0, h2o: 0 }));
}

#[test]
fn apply_delta_adds_component_wise() {
    let mut g = Gas { o2: 10, co2: 20, co: 30, h2o: 40 };
    g.apply_delta(Gas { o2: -1, co2: 2, co: -3, h2o: 4 });
    assert_eq!(g, Gas { o2: 9, co2: 22, co: 27, h2o: 44 });
}

#[test]
fn fluid_and_solid_deltas() {
    let mut f = Fluid::zero();
    assert!(f.can_apply_delta(Fluid { h2o: 5 }));
    assert!(!f.can_apply_delta(Fluid { h2o: -1 }));
    f.apply_delta(Fluid { h2o: 5 });
    assert_eq!(f.h2o, 5);

    let mut s = Solid::zero();
    assert!(s.can_apply_delta(Solid { ch2o: 7 }));
    assert!(!s.can_apply_delta(Solid { ch2o: -1 }));
    s.apply_delta(Solid { ch2o: 7 });
    assert_eq!(s.ch2o, 7);
}

#[test]
fn gas_from_parts_floors_each_species() {
    // total = 5 * 10 = 50; 50*2500/10000 = 12.5 -> 12.
    let g = gas_from_parts(Volume::new(10), 5, 2500, 5000, 1000, 10_000);
    assert_eq!(g.o2, 12);
    assert_eq!(g.co2, 25);
    assert_eq!(g.co, 0);
    assert_eq!(g.h2o, 5);
    assert!(g.o2 + g.co2 + g.h2o <= 50);
}

#[test]
fn gas_from_parts_zero_pressure() {
    let g = gas_from_parts(Volume::new(1000), 0, 13, 9532, 0, 10_000);
    assert_eq!(g, Gas::zero());
}

#[test]
fn reaction_check_accepts_balanced_deltas() {
    // Respiration: CH2O + O2 -> CO2 + H2O.
    let r = Reaction::new(
        root_id(),
        Gas { o2: -3, co2: 3, co: 0, h2o: 3 },
        Fluid::zero(),
        Solid { ch2o: -3 },
    );
    assert!(r.check());
    // All-zero deltas are balanced.
    let z = Reaction::new(root_id(), Gas::zero(), Fluid::zero(), Solid::zero());
    assert!(z.check());
}

#[test]
fn reaction_check_rejects_unbalanced_deltas() {
    // Destroying O2 from nowhere fails the oxygen identity.
    let r = Reaction::new(
        root_id(),
        Gas { o2: -1, co2: 0, co: 0, h2o: 0 },
        Fluid::zero(),
        Solid::zero(),
    );
    assert!(!r.check());
    // Carbon balance alone is not enough: CO2 -> CO drops an oxygen.
    let r2 = Reaction::new(
        root_id(),
        Gas { o2: 0, co2: -1, co: 1, h2o: 0 },
        Fluid::zero(),
        Solid::zero(),
    );
    assert!(!r2.check());
}
