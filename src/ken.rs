//! A four-seat aircraft with fixed limits: take-off weight, baggage and fuel.

use vstd::prelude::*;

use crate::aggregate::{aggregate, CgPoint, WeightLever};
use crate::envelope::{containment, is_inside_polygon};
use crate::kinds::{Kind, KindMap};
use crate::planes::{over_limit, takeoff_point, PlaneProperties};

verus! {

/// Maximum take-off weight.
pub const KEN_MAX_TAKE_OFF_WEIGHT: i32 = 105500;

/// Maximum baggage weight.
pub const KEN_MAX_BAGAGE_WEIGHT: i32 = 2300;

/// Maximum fuel weight.
pub const KEN_MAX_FUEL_WEIGHT: i32 = 12900;

/// A loading of the aircraft together with its envelope.
#[derive(Clone, Copy, Debug)]
pub struct Ken {
    pub properties: PlaneProperties,
    pub vertices: [WeightLever; 6],
}

/// Whether the loading is within the aircraft's scalar limits and its
/// centre of gravity strictly inside the envelope.
pub open spec fn ken_verdict(ken: Ken) -> bool {
    let items = ken.properties@;
    &&& takeoff_point(items).weight <= KEN_MAX_TAKE_OFF_WEIGHT
    &&& !over_limit(items, Kind::Bagage, Some(KEN_MAX_BAGAGE_WEIGHT))
    &&& !over_limit(items, Kind::Fuel, Some(KEN_MAX_FUEL_WEIGHT))
    &&& containment(ken.vertices@, takeoff_point(items), false) is Ok
}

impl Ken {
    pub fn new(properties: PlaneProperties, vertices: [WeightLever; 6]) -> (r: Ken)
        ensures
            r.properties == properties,
            r.vertices == vertices,
    {
        Ken { properties, vertices }
    }

    fn is_mtow_ok(&self) -> (r: bool)
        ensures
            r == (takeoff_point(self.properties@).weight <= KEN_MAX_TAKE_OFF_WEIGHT),
    {
        let excluded: [Kind; 0] = [];
        let p = aggregate(self.properties.items(), &excluded);
        assert(excluded@ =~= Seq::<Kind>::empty());
        p.weight <= KEN_MAX_TAKE_OFF_WEIGHT as i64
    }

    fn is_bagage_ok(&self) -> (r: bool)
        ensures
            r == !over_limit(self.properties@, Kind::Bagage, Some(KEN_MAX_BAGAGE_WEIGHT)),
    {
        if let Some(bagage) = self.properties.get(Kind::Bagage) {
            return bagage.weight <= KEN_MAX_BAGAGE_WEIGHT;
        }
        true
    }

    fn is_fuel_ok(&self) -> (r: bool)
        ensures
            r == !over_limit(self.properties@, Kind::Fuel, Some(KEN_MAX_FUEL_WEIGHT)),
    {
        if let Some(fuel) = self.properties.get(Kind::Fuel) {
            return fuel.weight <= KEN_MAX_FUEL_WEIGHT;
        }
        true
    }

    /// The centre of gravity of the whole loading.
    pub fn calc_weight_and_balance(&self) -> (r: CgPoint)
        requires
            takeoff_point(self.properties@).weight > 0,
        ensures
            r == takeoff_point(self.properties@),
            r.wf(),
    {
        let excluded: [Kind; 0] = [];
        let p = aggregate(self.properties.items(), &excluded);
        assert(excluded@ =~= Seq::<Kind>::empty());
        p
    }

    /// Whether the loading passes every check of this aircraft.
    pub fn is_weight_and_balance_ok(&self) -> (r: bool)
        requires
            takeoff_point(self.properties@).weight > 0,
        ensures
            r == ken_verdict(*self),
    {
        let calc = self.calc_weight_and_balance();
        if !self.is_mtow_ok() || !self.is_bagage_ok() || !self.is_fuel_ok() {
            return false;
        }
        is_inside_polygon(calc, &self.vertices, false).is_ok()
    }
}

/// The aircraft's lever arms and envelope.
#[derive(Clone, Copy, Debug)]
pub struct KenConfig {
    pub config: KindMap<i32>,
    pub vortices: [WeightLever; 6],
}

impl KenConfig {
    /// No lever arms yet, and the aircraft's envelope.
    pub fn new() -> (r: KenConfig)
        ensures
            r.config@ == Map::<Kind, i32>::empty(),
            r.vortices@ == seq![
                WeightLever { weight: 49000, lever: 17120 },
                WeightLever { weight: 60000, lever: 17120 },
                WeightLever { weight: 75000, lever: 17920 },
                WeightLever { weight: 75000, lever: 18400 },
                WeightLever { weight: 60000, lever: 18400 },
                WeightLever { weight: 49000, lever: 18400 },
            ],
    {
        let r = KenConfig {
            config: KindMap::new(),
            vortices: [
                WeightLever::new(49000, 17120),
                WeightLever::new(60000, 17120),
                WeightLever::new(75000, 17920),
                WeightLever::new(75000, 18400),
                WeightLever::new(60000, 18400),
                WeightLever::new(49000, 18400),
            ],
        };
        assert(r.vortices@ =~= seq![
            WeightLever { weight: 49000, lever: 17120 },
            WeightLever { weight: 60000, lever: 17120 },
            WeightLever { weight: 75000, lever: 17920 },
            WeightLever { weight: 75000, lever: 18400 },
            WeightLever { weight: 60000, lever: 18400 },
            WeightLever { weight: 49000, lever: 18400 },
        ]);
        r
    }
}

} // verus!
