use wbl::{is_inside_polygon, CgPoint, FailReason, WeightLever};

/// A rectangle over levers 100..300 and weights 400..800, with midpoints on
/// its long sides.
fn rectangle() -> [WeightLever; 6] {
    [
        WeightLever::new(400, 100),
        WeightLever::new(800, 100),
        WeightLever::new(800, 200),
        WeightLever::new(800, 300),
        WeightLever::new(400, 300),
        WeightLever::new(400, 200),
    ]
}

fn at(weight: i32, lever: i32) -> CgPoint {
    CgPoint::from_weight_lever(WeightLever::new(weight, lever))
}

#[test]
fn inside_point_is_accepted() {
    assert_eq!(is_inside_polygon(at(600, 150), &rectangle(), false), Ok(()));
}

#[test]
fn outside_points_are_rejected() {
    let v = rectangle();
    assert_eq!(is_inside_polygon(at(600, 350), &v, true), Err(FailReason::TorqueOutOfBounds));
    assert_eq!(is_inside_polygon(at(900, 150), &v, true), Err(FailReason::TorqueOutOfBounds));
    assert_eq!(is_inside_polygon(at(300, 50), &v, true), Err(FailReason::TorqueOutOfBounds));
    // Level with an edge, beyond its end.
    assert_eq!(is_inside_polygon(at(800, 350), &v, true), Err(FailReason::TorqueOutOfBounds));
}

#[test]
fn containment_is_idempotent() {
    let v = rectangle();
    for p in [at(600, 150), at(600, 350), at(400, 100)] {
        for flag in [false, true] {
            assert_eq!(is_inside_polygon(p, &v, flag), is_inside_polygon(p, &v, flag));
        }
    }
}

#[test]
fn vertex_follows_border_flag() {
    let v = rectangle();
    for vertex in v.iter() {
        let p = CgPoint::from_weight_lever(*vertex);
        assert_eq!(is_inside_polygon(p, &v, true), Ok(()));
        assert_eq!(is_inside_polygon(p, &v, false), Err(FailReason::TorqueOutOfBounds));
    }
}

#[test]
fn edge_point_follows_border_flag() {
    let v = rectangle();
    // On the closing edge, from the last vertex back to the first.
    let p = at(400, 150);
    assert_eq!(is_inside_polygon(p, &v, true), Ok(()));
    assert_eq!(is_inside_polygon(p, &v, false), Err(FailReason::TorqueOutOfBounds));
    // On the top edge, at lever 150.5.
    let p = CgPoint { weight: 800, torque: 800 * 150 + 400 };
    assert_eq!(is_inside_polygon(p, &v, true), Ok(()));
    assert_eq!(is_inside_polygon(p, &v, false), Err(FailReason::TorqueOutOfBounds));
}

#[test]
fn fractional_lever_near_edge() {
    let v = rectangle();
    // Lever 100.5: just inside the left edge.
    let p = CgPoint { weight: 600, torque: 600 * 100 + 300 };
    assert_eq!(is_inside_polygon(p, &v, false), Ok(()));
    // Lever 99.5: just outside.
    let p = CgPoint { weight: 600, torque: 600 * 100 - 300 };
    assert_eq!(is_inside_polygon(p, &v, true), Err(FailReason::TorqueOutOfBounds));
}

#[test]
fn clockwise_envelope_also_contains() {
    let mut v = rectangle();
    v.reverse();
    assert_eq!(is_inside_polygon(at(600, 150), &v, false), Ok(()));
    assert_eq!(is_inside_polygon(at(600, 350), &v, false), Err(FailReason::TorqueOutOfBounds));
}

#[test]
fn lever_rounds_down() {
    assert_eq!(CgPoint { weight: 3, torque: 10 }.lever(), 3);
    assert_eq!(CgPoint { weight: 3, torque: -10 }.lever(), -4);
    assert_eq!(CgPoint { weight: 3, torque: 9 }.lever(), 3);
    assert_eq!(CgPoint { weight: 3, torque: -9 }.lever(), -3);
}
