use wbl::planes::{find_plane, parse_values, Levers, MaxWeights, ParsedInput, PlaneData, PlaneProperties};
use wbl::{FailReason, Kind, KindMap, WeightLever};

/// An envelope over levers 100.00..300.00 and weights 400.00..1200.00.
fn wide_envelope() -> [WeightLever; 6] {
    [
        WeightLever::new(40000, 10000),
        WeightLever::new(120000, 10000),
        WeightLever::new(120000, 20000),
        WeightLever::new(120000, 30000),
        WeightLever::new(40000, 30000),
        WeightLever::new(40000, 20000),
    ]
}

fn levers() -> Levers {
    Levers {
        base: 21940,
        fuel: 24130,
        trip_fuel: 24130,
        bagage: Some(36270),
        bagage_back: Some(25000),
        bagage_front: Some(15000),
        bagage_wings: Some(20000),
        pilot: 20440,
        co_pilot: 20440,
        passenger_left: None,
        passenger_right: None,
    }
}

fn limits() -> MaxWeights {
    MaxWeights {
        max_take_off_weight: 105500,
        max_fuel_weight: 12900,
        max_zero_fuel_mass: None,
        max_bagage_weight: None,
        max_bagage_weight_front: None,
        max_bagage_weight_back: None,
        max_bagage_weight_wings: None,
    }
}

fn plane(max_weights: MaxWeights) -> PlaneData {
    PlaneData { name: "TEST".to_string(), levers: levers(), max_weights, vertices: wide_envelope() }
}

fn weights(entries: &[(Kind, i32)]) -> KindMap<i32> {
    let mut m = KindMap::new();
    for (k, w) in entries {
        m.insert(*k, *w);
    }
    m
}

fn props(p: &PlaneData, entries: &[(Kind, i32)]) -> PlaneProperties {
    p.properties(&weights(entries)).unwrap()
}

fn scenario_a() -> Vec<(Kind, i32)> {
    vec![(Kind::Base, 68520), (Kind::Pilot, 7000), (Kind::Fuel, 12900), (Kind::Bagage, 2300)]
}

#[test]
fn scenario_a_bagage_limit_fails_before_envelope() {
    let p = plane(MaxWeights { max_bagage_weight: Some(1500), ..limits() });
    let items = props(&p, &scenario_a());
    let point = p.calc_weight_and_balance(&items);
    assert_eq!(point.weight, 90720);
    assert!(point.weight <= 105500);
    assert_eq!(p.is_weight_and_balance_ok(&items), Err(FailReason::Bagage));
    assert_eq!(p.check_limits(&items), Err(FailReason::Bagage));
}

#[test]
fn scenario_a_passes_with_room_for_bagage() {
    let p = plane(MaxWeights { max_bagage_weight: Some(2300), ..limits() });
    let items = props(&p, &scenario_a());
    assert_eq!(p.is_weight_and_balance_ok(&items), Ok(()));
    let (verdict, point) = p.validate_takeoff(&items);
    assert_eq!(verdict, Ok(()));
    assert_eq!(point.torque, 68520 * 21940 + 7000 * 20440 + 12900 * 24130 + 2300 * 36270);
    assert_eq!(point.lever(), (68520i128 * 21940 + 7000 * 20440 + 12900 * 24130 + 2300 * 36270) / 90720);
}

#[test]
fn scenario_b_zero_fuel_point_on_edge() {
    let mut lv = levers();
    lv.base = 10000;
    lv.fuel = 20000;
    let p = PlaneData { name: "EDGE".to_string(), levers: lv, max_weights: limits(), vertices: wide_envelope() };
    // Without fuel the point is (lever 100.00, weight 500.00): on the envelope's left edge.
    let items = props(&p, &[(Kind::Base, 50000), (Kind::Fuel, 10000)]);
    assert_eq!(p.is_weight_and_balance_ok(&items), Err(FailReason::ZeroFuel));
}

#[test]
fn scenario_c_fuel_over_limit() {
    let p = plane(limits());
    let items = props(&p, &[(Kind::Base, 68520), (Kind::Pilot, 7000), (Kind::Fuel, 13000)]);
    assert_eq!(p.is_weight_and_balance_ok(&items), Err(FailReason::Fuel));
    let items = props(&p, &[(Kind::Base, 68520), (Kind::Pilot, 7000), (Kind::Fuel, 12900)]);
    assert_eq!(p.is_weight_and_balance_ok(&items), Ok(()));
}

#[test]
fn max_take_off_weight_exceeded() {
    let p = plane(limits());
    let items = props(&p, &[(Kind::Base, 90000), (Kind::Pilot, 15000), (Kind::Fuel, 600)]);
    assert_eq!(p.is_weight_and_balance_ok(&items), Err(FailReason::MaxTakeOffWeight));
    let items = props(&p, &[(Kind::Base, 90000), (Kind::Pilot, 15000), (Kind::Fuel, 500)]);
    assert_eq!(p.is_weight_and_balance_ok(&items), Ok(()));
}

#[test]
fn heavier_item_moves_towards_mtow() {
    let p = plane(limits());
    let light = props(&p, &[(Kind::Base, 90000), (Kind::Pilot, 10000)]);
    let heavy = props(&p, &[(Kind::Base, 90000), (Kind::Pilot, 16000)]);
    let a = p.calc_weight_and_balance(&light);
    let b = p.calc_weight_and_balance(&heavy);
    assert_eq!(b.weight - a.weight, 6000);
    assert_eq!(p.is_weight_and_balance_ok(&light), Ok(()));
    assert_eq!(p.is_weight_and_balance_ok(&heavy), Err(FailReason::MaxTakeOffWeight));
}

#[test]
fn wing_load_exceeded() {
    let p = plane(MaxWeights { max_zero_fuel_mass: Some(60000), ..limits() });
    let items = props(&p, &[(Kind::Base, 50000), (Kind::Pilot, 8000), (Kind::BagageBack, 2001)]);
    assert_eq!(p.is_weight_and_balance_ok(&items), Err(FailReason::MaxWingLoad));
    // Fuel does not load the wings.
    let items = props(&p, &[(Kind::Base, 50000), (Kind::Pilot, 8000), (Kind::Fuel, 5000)]);
    assert_eq!(p.is_weight_and_balance_ok(&items), Ok(()));
}

#[test]
fn bagage_zones_checked_in_order() {
    let p = plane(MaxWeights {
        max_bagage_weight: Some(1000),
        max_bagage_weight_back: Some(1000),
        max_bagage_weight_front: Some(1000),
        max_bagage_weight_wings: Some(1000),
        ..limits()
    });
    let base = [(Kind::Base, 60000)];
    let with = |extra: &[(Kind, i32)]| {
        let mut v = base.to_vec();
        v.extend_from_slice(extra);
        props(&p, &v)
    };
    assert_eq!(p.is_weight_and_balance_ok(&with(&[(Kind::BagageWings, 1001), (Kind::Bagage, 1001)])), Err(FailReason::BagageWings));
    assert_eq!(p.is_weight_and_balance_ok(&with(&[(Kind::Bagage, 1001), (Kind::BagageBack, 1001)])), Err(FailReason::Bagage));
    assert_eq!(p.is_weight_and_balance_ok(&with(&[(Kind::BagageBack, 1001), (Kind::BagageFront, 1001)])), Err(FailReason::BagageBack));
    assert_eq!(p.is_weight_and_balance_ok(&with(&[(Kind::BagageFront, 1001)])), Err(FailReason::BagageFront));
    assert_eq!(p.is_weight_and_balance_ok(&with(&[(Kind::BagageFront, 1000), (Kind::BagageWings, 1000)])), Ok(()));
}

#[test]
fn unconfigured_limits_are_skipped() {
    let p = plane(limits());
    let items = props(&p, &[(Kind::Base, 60000), (Kind::Bagage, 5000), (Kind::BagageWings, 5000)]);
    assert_eq!(p.is_weight_and_balance_ok(&items), Ok(()));
}

#[test]
fn landing_fuel_must_be_positive_and_within_limit() {
    let p = plane(limits());
    let items = props(&p, &[(Kind::Base, 60000), (Kind::Fuel, 10000), (Kind::TripFuel, 0)]);
    assert_eq!(p.is_landing_weight_and_balance_ok(&items), Err(FailReason::LandingFuel));
    let items = props(&p, &[(Kind::Base, 60000), (Kind::Fuel, 10000), (Kind::TripFuel, 13000)]);
    assert_eq!(p.is_landing_weight_and_balance_ok(&items), Err(FailReason::LandingFuel));
    let items = props(&p, &[(Kind::Base, 60000), (Kind::Fuel, 10000), (Kind::TripFuel, 4000)]);
    assert_eq!(p.is_landing_weight_and_balance_ok(&items), Ok(()));
    let (verdict, point) = p.validate_landing(&items);
    assert_eq!(verdict, Ok(()));
    assert_eq!(point.weight, 70000);
    assert_eq!(p.calc_landing_weight_and_balance(&items).torque, 60000 * 21940 + 10000 * 24130);
}

#[test]
fn envelope_violation_reported_last() {
    let mut lv = levers();
    lv.pilot = 29000;
    let p = PlaneData { name: "AFT".to_string(), levers: lv, max_weights: limits(), vertices: wide_envelope() };
    // Without fuel the point is inside; with fuel far aft it leaves the envelope.
    let mut lv2 = lv;
    lv2.fuel = 90000;
    let p2 = PlaneData { name: "AFT".to_string(), levers: lv2, max_weights: limits(), vertices: wide_envelope() };
    let items = props(&p2, &[(Kind::Base, 50000), (Kind::Fuel, 12000)]);
    assert_eq!(p2.is_weight_and_balance_ok(&items), Err(FailReason::TorqueOutOfBounds));
    let items = props(&p, &[(Kind::Base, 50000), (Kind::Pilot, 8000)]);
    assert_eq!(p.is_weight_and_balance_ok(&items), Ok(()));
}

#[test]
fn kind_without_lever_is_refused() {
    let p = plane(limits());
    assert_eq!(p.properties(&weights(&[(Kind::Base, 1), (Kind::PaxLeftBack, 1)])).err(), Some(Kind::PaxLeftBack));
    assert_eq!(p.properties(&weights(&[(Kind::NoValue, 1)])).err(), Some(Kind::NoValue));
}

#[test]
fn items_pair_weight_with_lever() {
    let p = plane(limits());
    let items = props(&p, &[(Kind::Pilot, 7000)]);
    assert_eq!(items.get(Kind::Pilot), Some(WeightLever::new(7000, 20440)));
    assert_eq!(items.get(Kind::Base), None);
}

#[test]
fn lever_map_holds_configured_kinds() {
    let m = plane(limits()).to_lever_map();
    assert_eq!(m.get(Kind::Base), Some(21940));
    assert_eq!(m.get(Kind::TripFuel), Some(24130));
    assert_eq!(m.get(Kind::BagageFront), Some(15000));
    assert_eq!(m.get(Kind::PaxLeftBack), None);
    assert_eq!(m.get(Kind::NoValue), None);
}

#[test]
fn values_parsed_by_name() {
    let entries = vec![("base".to_string(), 45350), ("trip_fuel".to_string(), 3500), ("co_pilot".to_string(), 0)];
    let m = parse_values(&entries).unwrap();
    assert_eq!(m.get(Kind::Base), Some(45350));
    assert_eq!(m.get(Kind::TripFuel), Some(3500));
    assert_eq!(m.get(Kind::CoPilot), Some(0));
    assert_eq!(m.get(Kind::Fuel), None);
    let bad = vec![("base".to_string(), 1), ("cargo".to_string(), 2), ("wings".to_string(), 3)];
    assert_eq!(parse_values(&bad).err(), Some(1));
    let input = ParsedInput { name: "MOA".to_string(), values: m };
    assert_eq!(input.values.get(Kind::Base), Some(45350));
}

#[test]
fn plane_found_by_name() {
    let planes = vec![plane(limits()), PlaneData { name: "MOA".to_string(), ..plane(limits()) }];
    assert_eq!(find_plane(&planes, "MOA"), Some(1));
    assert_eq!(find_plane(&planes, "TEST"), Some(0));
    assert_eq!(find_plane(&planes, "KEN"), None);
}
