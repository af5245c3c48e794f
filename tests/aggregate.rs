use wbl::aggregate::aggregate;
use wbl::{iterate_maps, Kind, KindMap, WeightLever};

fn items(entries: &[(Kind, i32, i32)]) -> KindMap<WeightLever> {
    let mut m = KindMap::new();
    for (k, w, l) in entries {
        m.insert(*k, WeightLever::new(*w, *l));
    }
    m
}

#[test]
fn aggregate_is_weighted_mean() {
    let m = items(&[(Kind::Base, 68520, 21940), (Kind::Pilot, 7000, 20440)]);
    let p = aggregate(&m, &[]);
    assert_eq!(p.weight, 75520);
    assert_eq!(p.torque, 68520 * 21940 + 7000 * 20440);
    assert_eq!(p.lever(), (68520 * 21940 + 7000 * 20440) / 75520);
}

#[test]
fn aggregate_ignores_order_of_insertion() {
    let entries = [
        (Kind::Base, 68520, 21940),
        (Kind::Pilot, 7000, 20440),
        (Kind::Fuel, 12900, 24130),
        (Kind::Bagage, 2300, 36270),
    ];
    let forward = items(&entries);
    let mut reversed = entries;
    reversed.reverse();
    let backward = items(&reversed);
    assert_eq!(aggregate(&forward, &[]), aggregate(&backward, &[]));
    assert_eq!(aggregate(&forward, &[Kind::Fuel]), aggregate(&backward, &[Kind::Fuel]));
    assert_eq!(aggregate(&forward, &[]).weight, 90720);
}

#[test]
fn aggregate_leaves_out_excluded_kinds() {
    let m = items(&[(Kind::Base, 50000, 20000), (Kind::Fuel, 10000, 30000), (Kind::TripFuel, 4000, 30000)]);
    assert_eq!(aggregate(&m, &[Kind::Fuel]).weight, 54000);
    assert_eq!(aggregate(&m, &[Kind::TripFuel]).weight, 60000);
    assert_eq!(aggregate(&m, &[Kind::Fuel, Kind::TripFuel]).torque, 50000 * 20000);
}

#[test]
fn aggregate_of_nothing_is_zero() {
    let p = aggregate(&KindMap::new(), &[]);
    assert_eq!(p.weight, 0);
    assert_eq!(p.torque, 0);
}

#[test]
fn torque_is_weight_times_lever() {
    assert_eq!(WeightLever::new(7000, 20440).torque(), 143_080_000);
    assert_eq!(WeightLever::new(i32::MIN, i32::MIN).torque(), 1i64 << 62);
    assert_eq!(WeightLever::new(-3, 5).torque(), -15);
}

#[test]
fn kind_map_replaces_value() {
    let mut m = KindMap::new();
    m.insert(Kind::Fuel, 1);
    m.insert(Kind::Fuel, 2);
    assert_eq!(m.get(Kind::Fuel), Some(2));
    assert!(m.contains_key(Kind::Fuel));
    assert!(!m.contains_key(Kind::TripFuel));
}

#[test]
fn iterate_maps_pairs_values() {
    let mut a = KindMap::new();
    a.insert(Kind::Pilot, 1);
    a.insert(Kind::Base, 2);
    let mut b = KindMap::new();
    b.insert(Kind::Base, 20);
    b.insert(Kind::Pilot, 10);
    b.insert(Kind::Fuel, 30);
    assert_eq!(iterate_maps(&a, &b), Ok(vec![(Kind::Base, 2, 20), (Kind::Pilot, 1, 10)]));
    assert_eq!(iterate_maps(&b, &a), Err(Kind::Fuel));
}

#[test]
fn kinds_parse_from_names() {
    let names = [
        ("NoValue", Kind::NoValue),
        ("base", Kind::Base),
        ("fuel", Kind::Fuel),
        ("bagage", Kind::Bagage),
        ("bagage_front", Kind::BagageFront),
        ("bagage_back", Kind::BagageBack),
        ("bagage_wings", Kind::BagageWings),
        ("pilot", Kind::Pilot),
        ("co_pilot", Kind::CoPilot),
        ("passenger_left", Kind::PaxLeftBack),
        ("passenger_right", Kind::PaxRightBack),
        ("trip_fuel", Kind::TripFuel),
    ];
    for (name, kind) in names {
        assert_eq!(Kind::from_name(name), Some(kind));
        assert_eq!(kind.name(), name);
        assert_eq!(Kind::from_index(kind.index()), kind);
    }
    assert_eq!(Kind::from_name("Base"), None);
    assert_eq!(Kind::from_name(""), None);
    assert_eq!(Kind::from_name("fuel "), None);
}
