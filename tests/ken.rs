use wbl::ken::{Ken, KenConfig};
use wbl::planes::PlaneProperties;
use wbl::{Kind, KindMap, WeightLever};

fn ken_with(items: &[(Kind, i32, i32)]) -> Ken {
    let mut map = KindMap::new();
    for (k, w, l) in items {
        map.insert(*k, WeightLever::new(*w, *l));
    }
    Ken::new(PlaneProperties::new(map), KenConfig::new().vortices)
}

#[test]
fn bagage_ok_no_bagage() {
    let ken = ken_with(&[(Kind::Base, 50000, 17800), (Kind::Pilot, 8000, 17800)]);
    assert!(ken.is_weight_and_balance_ok());
}

#[test]
fn w_and_b_nok() {
    let ken = ken_with(&[(Kind::Base, 50000, 17800), (Kind::Pilot, 8000, 25000)]);
    assert!(!ken.is_weight_and_balance_ok());
}

#[test]
fn ken_rejects_heavy_bagage() {
    let ken = ken_with(&[
        (Kind::Base, 50000, 17800),
        (Kind::Pilot, 8000, 17800),
        (Kind::Bagage, 2400, 17800),
    ]);
    assert!(!ken.is_weight_and_balance_ok());
    let ken = ken_with(&[
        (Kind::Base, 50000, 17800),
        (Kind::Pilot, 8000, 17800),
        (Kind::Bagage, 2300, 17800),
    ]);
    assert!(ken.is_weight_and_balance_ok());
}

#[test]
fn ken_rejects_too_much_fuel() {
    let ken = ken_with(&[
        (Kind::Base, 50000, 17800),
        (Kind::Pilot, 8000, 17800),
        (Kind::Fuel, 13000, 17800),
    ]);
    assert!(!ken.is_weight_and_balance_ok());
}

#[test]
fn ken_point_is_weighted_mean() {
    let ken = ken_with(&[(Kind::Base, 50000, 17800), (Kind::Pilot, 8000, 25000)]);
    let p = ken.calc_weight_and_balance();
    assert_eq!(p.weight, 58000);
    assert_eq!(p.torque, 50000 * 17800 + 8000 * 25000);
    assert_eq!(p.lever(), 18793);
}

#[test]
fn ken_config_envelope() {
    let c = KenConfig::new();
    assert_eq!(c.vortices[0], WeightLever::new(49000, 17120));
    assert_eq!(c.vortices[5], WeightLever::new(49000, 18400));
    assert!(!c.config.contains_key(Kind::Base));
}
