use dustfall::flow::flow_amount;
use dustfall::quantity::Volume;

#[test]
fn flow_equalizes_when_capacity_allows() {
    // 1000 moles over volume 100 against an empty volume 50:
    // equalization moves 50000/150 = 333 moles.
    let f = flow_amount(1000, Volume::new(100), 0, Volume::new(50), 1000);
    assert_eq!(f, 333);
    assert_eq!((1000 - f) / 100, (0 + f) / 50);
}

#[test]
fn flow_is_clamped_by_capacity() {
    let f = flow_amount(1000, Volume::new(100), 0, Volume::new(50), 10);
    assert_eq!(f, 10);
}

#[test]
fn flow_runs_backwards_when_b_has_more() {
    // B holds everything, so the flow is negative (B to A).
    let f = flow_amount(0, Volume::new(100), 900, Volume::new(50), 1000);
    assert_eq!(f, -600);
    assert_eq!((0 - f) / 100, (900 + f) / 50);
}

#[test]
fn backward_flow_is_clamped_by_capacity() {
    let f = flow_amount(0, Volume::new(100), 900, Volume::new(50), 7);
    assert_eq!(f, -7);
}

#[test]
fn truncation_keeps_sub_unit_imbalances() {
    // The exact equalizing amount is 1000/1001 of a mole; truncation
    // toward zero moves nothing.
    let f = flow_amount(1, Volume::new(1), 0, Volume::new(1000), 100);
    assert_eq!(f, 0);
}

#[test]
fn equal_pressures_give_zero_flow() {
    let f = flow_amount(600, Volume::new(100), 300, Volume::new(50), 1000);
    assert_eq!(f, 0);
}

#[test]
fn tiny_volumes_equalize_within_one_unit() {
    // 3 moles against 0 at unit volumes: flow is trunc(3/2) = 1 and the
    // remaining pressures 2 and 1 differ by the one truncated unit.
    let f = flow_amount(3, Volume::new(1), 0, Volume::new(1), 100);
    assert_eq!(f, 1);
    assert_eq!(3 - f, 2);
}
