//! An aircraft with fixed limits on take-off weight, wing load and baggage
//! per zone, whose loaded and zero-fuel centres of gravity must both lie
//! inside the envelope.

use vstd::prelude::*;

use crate::aggregate::{
    aggregate, item_weight, lemma_total_bounds, total_torque, total_weight, CgPoint, WeightLever,
};
use crate::envelope::{containment, is_inside_polygon};
use crate::kinds::Kind;
use crate::planes::{over_limit, takeoff_point, wing_load, zero_fuel_point, PlaneProperties};

verus! {

/// Maximum take-off weight.
pub const MOA_MAX_TAKE_OFF_WEIGHT: i64 = 75000;

/// Maximum load on the wings.
pub const MOA_MAX_WING_LOAD: i64 = 66000;

/// Maximum baggage in the back compartment.
pub const MOA_MAX_BAGAGE_BACK: i32 = 1500;

/// Maximum baggage in the front compartment.
pub const MOA_MAX_BAGAGE_FRONT: i32 = 100;

/// Maximum baggage in the wings.
pub const MOA_MAX_BAGAGE_WINGS: i32 = 4000;

/// A loading of the aircraft together with its envelope.
#[derive(Clone, Copy, Debug)]
pub struct Moa {
    pub properties: PlaneProperties,
    pub vertices: [WeightLever; 6],
}

/// Whether the loading is within the aircraft's scalar limits and both its
/// centres of gravity strictly inside the envelope.
pub open spec fn moa_verdict(moa: Moa) -> bool {
    let items = moa.properties@;
    &&& takeoff_point(items).weight <= MOA_MAX_TAKE_OFF_WEIGHT
    &&& wing_load(items) <= MOA_MAX_WING_LOAD
    &&& !over_limit(items, Kind::BagageWings, Some(MOA_MAX_BAGAGE_WINGS))
    &&& !over_limit(items, Kind::BagageBack, Some(MOA_MAX_BAGAGE_BACK))
    &&& !over_limit(items, Kind::BagageFront, Some(MOA_MAX_BAGAGE_FRONT))
    &&& containment(moa.vertices@, takeoff_point(items), false) is Ok
    &&& containment(moa.vertices@, zero_fuel_point(items), false) is Ok
}

impl Moa {
    pub fn new(properties: PlaneProperties, vertices: [WeightLever; 6]) -> (r: Moa)
        ensures
            r.properties == properties,
            r.vertices == vertices,
    {
        Moa { properties, vertices }
    }

    fn is_max_wing_load_ok(&self) -> (r: bool)
        ensures
            r == (wing_load(self.properties@) <= MOA_MAX_WING_LOAD),
    {
        let kinds = [Kind::Base, Kind::Pilot, Kind::CoPilot, Kind::BagageBack, Kind::BagageFront];
        let mut load: i64 = 0;
        let mut i: usize = 0;
        while i < 5
            invariant
                i <= 5,
                kinds@ == seq![Kind::Base, Kind::Pilot, Kind::CoPilot, Kind::BagageBack, Kind::BagageFront],
                -0x8000_0000 * i <= load <= 0x8000_0000 * i,
                load == (if i > 0 { item_weight(self.properties@, kinds@[0]) } else { 0 })
                    + (if i > 1 { item_weight(self.properties@, kinds@[1]) } else { 0 })
                    + (if i > 2 { item_weight(self.properties@, kinds@[2]) } else { 0 })
                    + (if i > 3 { item_weight(self.properties@, kinds@[3]) } else { 0 })
                    + (if i > 4 { item_weight(self.properties@, kinds@[4]) } else { 0 }),
            decreases 5 - i,
        {
            if let Some(item) = self.properties.get(kinds[i]) {
                load = load + item.weight as i64;
            }
            i = i + 1;
        }
        load <= MOA_MAX_WING_LOAD
    }

    fn is_mtow_ok(&self) -> (r: bool)
        ensures
            r == (takeoff_point(self.properties@).weight <= MOA_MAX_TAKE_OFF_WEIGHT),
    {
        self.get_total_weights() <= MOA_MAX_TAKE_OFF_WEIGHT
    }

    fn is_zero_fuel_ok(&self) -> (r: bool)
        requires
            zero_fuel_point(self.properties@).weight > 0,
        ensures
            r == containment(self.vertices@, zero_fuel_point(self.properties@), false) is Ok,
    {
        let excluded = [Kind::Fuel];
        let zero_fuel = aggregate(self.properties.items(), &excluded);
        assert(excluded@ =~= seq![Kind::Fuel]);
        is_inside_polygon(zero_fuel, &self.vertices, false).is_ok()
    }

    fn is_bagage_ok(&self) -> (r: bool)
        ensures
            r == (!over_limit(self.properties@, Kind::BagageBack, Some(MOA_MAX_BAGAGE_BACK)) && !over_limit(
                self.properties@,
                Kind::BagageFront,
                Some(MOA_MAX_BAGAGE_FRONT),
            )),
    {
        is_within(&self.properties, Kind::BagageBack, MOA_MAX_BAGAGE_BACK) && is_within(
            &self.properties,
            Kind::BagageFront,
            MOA_MAX_BAGAGE_FRONT,
        )
    }

    fn is_bagage_in_wings_ok(&self) -> (r: bool)
        ensures
            r == !over_limit(self.properties@, Kind::BagageWings, Some(MOA_MAX_BAGAGE_WINGS)),
    {
        is_within(&self.properties, Kind::BagageWings, MOA_MAX_BAGAGE_WINGS)
    }

    fn get_total_weights(&self) -> (r: i64)
        ensures
            r == total_weight(self.properties@, seq![]),
            r == takeoff_point(self.properties@).weight,
    {
        let excluded: [Kind; 0] = [];
        let p = aggregate(self.properties.items(), &excluded);
        assert(excluded@ =~= Seq::<Kind>::empty());
        p.weight
    }

    fn get_total_torque(&self) -> (r: i128)
        ensures
            r == total_torque(self.properties@, seq![]),
    {
        let excluded: [Kind; 0] = [];
        let p = aggregate(self.properties.items(), &excluded);
        assert(excluded@ =~= Seq::<Kind>::empty());
        p.torque
    }

    /// Sets the weight of the loaded item of kind `kind`, keeping its lever;
    /// fails with `kind` when no such item is loaded.
    pub fn update_weight(&mut self, kind: Kind, weight: i32) -> (r: Result<(), Kind>)
        ensures
            r is Ok <==> old(self).properties@.contains_key(kind),
            r is Ok ==> final(self).properties@ == old(self).properties@.insert(
                kind,
                WeightLever { weight, lever: old(self).properties@[kind].lever },
            ),
            r is Err ==> r == Err::<(), Kind>(kind) && *final(self) == *old(self),
            final(self).vertices == old(self).vertices,
    {
        match self.properties.get(kind) {
            Some(arm) => {
                let mut items = *self.properties.items();
                items.insert(kind, WeightLever::new(weight, arm.lever));
                self.properties = PlaneProperties::new(items);
                Ok(())
            },
            None => Err(kind),
        }
    }

    /// The centre of gravity of the whole loading.
    pub fn calc_weight_and_balance(&self) -> (r: CgPoint)
        requires
            takeoff_point(self.properties@).weight > 0,
        ensures
            r == takeoff_point(self.properties@),
            r.wf(),
    {
        let total_weight = self.get_total_weights();
        let total_torque = self.get_total_torque();
        proof {
            lemma_total_bounds(self.properties@, seq![]);
        }
        CgPoint { weight: total_weight, torque: total_torque }
    }

    /// Whether the loading passes every check of this aircraft.
    pub fn is_weight_and_balance_ok(&self) -> (r: bool)
        requires
            takeoff_point(self.properties@).weight > 0,
            zero_fuel_point(self.properties@).weight > 0,
        ensures
            r == moa_verdict(*self),
    {
        if !self.is_mtow_ok() || !self.is_max_wing_load_ok() || !self.is_bagage_in_wings_ok()
            || !self.is_bagage_ok() {
            return false;
        }
        let calc = self.calc_weight_and_balance();
        is_inside_polygon(calc, &self.vertices, false).is_ok() && self.is_zero_fuel_ok()
    }
}

/// Whether the item of kind `k`, if loaded, weighs at most `limit`.
fn is_within(prop: &PlaneProperties, k: Kind, limit: i32) -> (r: bool)
    ensures
        r == !over_limit(prop@, k, Some(limit)),
{
    match prop.get(k) {
        Some(item) => item.weight <= limit,
        None => true,
    }
}

} // verus!
