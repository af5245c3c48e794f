//! Aircraft profiles, and the ordered weight-and-balance checks against them.

use vstd::prelude::*;

use crate::aggregate::{
    aggregate, item_weight, lemma_total_bounds, lemma_upto_insert, point_of, total_weight, CgPoint,
    WeightLever,
};
use crate::envelope::{containment, is_inside_polygon};
use crate::fail_reason::FailReason;
use crate::kinds::{iterate_maps, kind_named, same_text, lemma_kind_index_bijective, Kind, KindMap, KIND_COUNT};

verus! {

/// Lever arms of the loadable kinds; `None` for a kind the aircraft lacks.
#[derive(Clone, Copy, PartialEq, Eq, Structural, Debug, Default)]
pub struct Levers {
    pub base: i32,
    pub fuel: i32,
    pub trip_fuel: i32,
    pub bagage: Option<i32>,
    pub bagage_back: Option<i32>,
    pub bagage_front: Option<i32>,
    pub bagage_wings: Option<i32>,
    pub pilot: i32,
    pub co_pilot: i32,
    pub passenger_left: Option<i32>,
    pub passenger_right: Option<i32>,
}

/// Weight limits; `None` for a limit that does not apply to the aircraft.
#[derive(Clone, Copy, PartialEq, Eq, Structural, Debug, Default)]
pub struct MaxWeights {
    pub max_take_off_weight: i32,
    pub max_fuel_weight: i32,
    pub max_zero_fuel_mass: Option<i32>,
    pub max_bagage_weight: Option<i32>,
    pub max_bagage_weight_front: Option<i32>,
    pub max_bagage_weight_back: Option<i32>,
    pub max_bagage_weight_wings: Option<i32>,
}

/// The profile of one aircraft type: lever arms, limits and envelope.
///
/// A vertex of the envelope is a weight at a lever.
#[derive(Clone, Debug)]
pub struct PlaneData {
    pub name: String,
    pub levers: Levers,
    pub max_weights: MaxWeights,
    pub vertices: [WeightLever; 6],
}

/// The lever arm that `levers` configures for `k`.
pub open spec fn lever_of(levers: Levers, k: Kind) -> Option<i32> {
    match k {
        Kind::NoValue => None,
        Kind::Base => Some(levers.base),
        Kind::Fuel => Some(levers.fuel),
        Kind::TripFuel => Some(levers.trip_fuel),
        Kind::Bagage => levers.bagage,
        Kind::BagageBack => levers.bagage_back,
        Kind::BagageFront => levers.bagage_front,
        Kind::BagageWings => levers.bagage_wings,
        Kind::Pilot => Some(levers.pilot),
        Kind::CoPilot => Some(levers.co_pilot),
        Kind::PaxLeftBack => levers.passenger_left,
        Kind::PaxRightBack => levers.passenger_right,
    }
}

/// The configured lever arms as a map from kind.
pub open spec fn lever_map(levers: Levers) -> Map<Kind, i32> {
    Map::new(|k: Kind| lever_of(levers, k) is Some, |k: Kind| lever_of(levers, k)->Some_0)
}

/// The items obtained by placing each entered weight at its kind's lever.
pub open spec fn paired(weights: Map<Kind, i32>, levers: Map<Kind, i32>) -> Map<Kind, WeightLever> {
    Map::new(
        |k: Kind| weights.contains_key(k),
        |k: Kind| WeightLever { weight: weights[k], lever: levers[k] },
    )
}

/// The loaded items of one flight, at most one per kind.
#[derive(Clone, Copy, Debug)]
pub struct PlaneProperties(KindMap<WeightLever>);

impl View for PlaneProperties {
    type V = Map<Kind, WeightLever>;

    closed spec fn view(&self) -> Map<Kind, WeightLever> {
        self.0@
    }
}

impl PlaneProperties {
    pub fn new(val: KindMap<WeightLever>) -> (r: PlaneProperties)
        ensures
            r@ == val@,
    {
        PlaneProperties(val)
    }

    /// Places each entered weight at the lever that `levers` gives its kind.
    ///
    /// Fails with the first kind (in the fixed order of kinds) that has a
    /// weight but no lever.
    pub fn from_weights(levers: &KindMap<i32>, weights: &KindMap<i32>) -> (r: Result<PlaneProperties, Kind>)
        ensures
            r is Ok <==> weights@.dom().subset_of(levers@.dom()),
            r matches Ok(p) ==> p@ == paired(weights@, levers@),
            r matches Err(k) ==> weights@.contains_key(k) && !levers@.contains_key(k),
    {
        match iterate_maps(weights, levers) {
            Err(k) => Err(k),
            Ok(pairs) => {
                let mut items: KindMap<WeightLever> = KindMap::new();
                let mut i: usize = 0;
                while i < pairs.len()
                    invariant
                        i <= pairs@.len(),
                        weights@.dom().subset_of(levers@.dom()),
                        forall|j: int| 0 <= j < pairs@.len() ==> {
                            let (k, a, b) = #[trigger] pairs@[j];
                            weights@.contains_key(k) && a == weights@[k] && b == levers@[k]
                        },
                        forall|k: Kind| weights@.contains_key(k) ==> exists|j: int|
                            0 <= j < pairs@.len() && (#[trigger] pairs@[j]).0 == k,
                        forall|k: Kind| #[trigger] items@.contains_key(k) ==> {
                            &&& weights@.contains_key(k)
                            &&& items@[k] == WeightLever { weight: weights@[k], lever: levers@[k] }
                        },
                        forall|j: int| 0 <= j < i ==> items@.contains_key(#[trigger] pairs@[j].0),
                    decreases pairs@.len() - i,
                {
                    let (k, w, l) = pairs[i];
                    items.insert(k, WeightLever::new(w, l));
                    i = i + 1;
                }
                proof {
                    assert forall|k: Kind| weights@.contains_key(k) implies items@.contains_key(k) by {
                        let j = choose|j: int| 0 <= j < pairs@.len() && (#[trigger] pairs@[j]).0 == k;
                        assert(items@.contains_key(pairs@[j].0));
                    }
                    assert(items@ =~= paired(weights@, levers@));
                }
                Ok(PlaneProperties(items))
            },
        }
    }

    /// The item of kind `k`, if loaded.
    pub fn get(&self, k: Kind) -> (r: Option<WeightLever>)
        ensures
            r == (if self@.contains_key(k) {
                Some(self@[k])
            } else {
                None
            }),
    {
        self.0.get(k)
    }

    /// The loaded items as a kind map.
    pub fn items(&self) -> (r: &KindMap<WeightLever>)
        ensures
            r@ == self@,
    {
        &self.0
    }
}

/// A flight's input: the aircraft's name and an entered weight per kind.
#[derive(Clone, Debug)]
pub struct ParsedInput {
    pub name: String,
    pub values: KindMap<i32>,
}

/// The weights of a list of named entries, a later entry replacing an
/// earlier one of the same kind.
pub open spec fn named_weights(entries: Seq<(String, i32)>) -> Map<Kind, i32>
    decreases entries.len(),
{
    if entries.len() == 0 {
        Map::empty()
    } else {
        let (name, w) = entries.last();
        named_weights(entries.drop_last()).insert(kind_named(name@)->Some_0, w)
    }
}

/// Reads entered weights keyed by kind name.
///
/// Fails with the index of the first entry whose name is no kind.
pub fn parse_values(entries: &Vec<(String, i32)>) -> (r: Result<KindMap<i32>, usize>)
    ensures
        r is Ok <==> forall|i: int| 0 <= i < entries@.len() ==> kind_named((#[trigger] entries@[i]).0@) is Some,
        r matches Ok(m) ==> m@ == named_weights(entries@),
        r matches Err(i) ==> {
            &&& i < entries@.len()
            &&& kind_named(entries@[i as int].0@) is None
            &&& forall|j: int| 0 <= j < i ==> kind_named((#[trigger] entries@[j]).0@) is Some
        },
{
    let mut values: KindMap<i32> = KindMap::new();
    let mut i: usize = 0;
    while i < entries.len()
        invariant
            i <= entries@.len(),
            forall|j: int| 0 <= j < i ==> kind_named((#[trigger] entries@[j]).0@) is Some,
            values@ == named_weights(entries@.subrange(0, i as int)),
        decreases entries@.len() - i,
    {
        let (name, w) = &entries[i];
        match Kind::from_name(name.as_str()) {
            Some(k) => {
                values.insert(k, *w);
                assert(entries@.subrange(0, i + 1).drop_last() =~= entries@.subrange(0, i as int));
            },
            None => {
                return Err(i);
            },
        }
        i = i + 1;
    }
    assert(entries@.subrange(0, i as int) =~= entries@);
    Ok(values)
}

/// The position of the first profile named `name`.
pub fn find_plane(planes: &Vec<PlaneData>, name: &str) -> (r: Option<usize>)
    ensures
        r matches Some(i) ==> i < planes@.len() && planes@[i as int].name@ == name@ && forall|j: int|
            0 <= j < i ==> (#[trigger] planes@[j]).name@ != name@,
        r is None ==> forall|j: int| 0 <= j < planes@.len() ==> (#[trigger] planes@[j]).name@ != name@,
{
    let mut i: usize = 0;
    while i < planes.len()
        invariant
            i <= planes@.len(),
            forall|j: int| 0 <= j < i ==> (#[trigger] planes@[j]).name@ != name@,
        decreases planes@.len() - i,
    {
        if same_text(planes[i].name.as_str(), name) {
            return Some(i);
        }
        i = i + 1;
    }
    None
}

/// Whether the item of kind `k` is loaded beyond `limit`, a configured limit.
pub open spec fn over_limit(items: Map<Kind, WeightLever>, k: Kind, limit: Option<i32>) -> bool {
    &&& limit is Some
    &&& items.contains_key(k)
    &&& items[k].weight > limit->Some_0
}

/// The load carried by the wings: base weight, crew and cabin baggage.
pub open spec fn wing_load(items: Map<Kind, WeightLever>) -> int {
    item_weight(items, Kind::Base) + item_weight(items, Kind::Pilot) + item_weight(items, Kind::CoPilot)
        + item_weight(items, Kind::BagageBack) + item_weight(items, Kind::BagageFront)
}

/// The centre of gravity of the whole loading.
pub open spec fn takeoff_point(items: Map<Kind, WeightLever>) -> CgPoint {
    point_of(items, seq![])
}

/// The centre of gravity without fuel.
pub open spec fn zero_fuel_point(items: Map<Kind, WeightLever>) -> CgPoint {
    point_of(items, seq![Kind::Fuel])
}

/// The centre of gravity once the trip fuel is burnt.
pub open spec fn landing_point(items: Map<Kind, WeightLever>) -> CgPoint {
    point_of(items, seq![Kind::TripFuel])
}

/// Whether the trip fuel, if loaded, is positive and within the fuel limit.
pub open spec fn landing_fuel_ok(items: Map<Kind, WeightLever>, max_fuel: i32) -> bool {
    items.contains_key(Kind::TripFuel) ==> 0 < items[Kind::TripFuel].weight <= max_fuel
}

/// The first limit, in the order of the checks, that `items` violates.
pub open spec fn limits_verdict(plane: PlaneData, items: Map<Kind, WeightLever>) -> Result<(), FailReason> {
    let m = plane.max_weights;
    if takeoff_point(items).weight > m.max_take_off_weight {
        Err(FailReason::MaxTakeOffWeight)
    } else if m.max_zero_fuel_mass is Some && wing_load(items) > m.max_zero_fuel_mass->Some_0 {
        Err(FailReason::MaxWingLoad)
    } else if over_limit(items, Kind::BagageWings, m.max_bagage_weight_wings) {
        Err(FailReason::BagageWings)
    } else if over_limit(items, Kind::Bagage, m.max_bagage_weight) {
        Err(FailReason::Bagage)
    } else if over_limit(items, Kind::BagageBack, m.max_bagage_weight_back) {
        Err(FailReason::BagageBack)
    } else if over_limit(items, Kind::BagageFront, m.max_bagage_weight_front) {
        Err(FailReason::BagageFront)
    } else if over_limit(items, Kind::Fuel, Some(m.max_fuel_weight)) {
        Err(FailReason::Fuel)
    } else if containment(plane.vertices@, zero_fuel_point(items), false) is Err {
        Err(FailReason::ZeroFuel)
    } else if !landing_fuel_ok(items, m.max_fuel_weight) {
        Err(FailReason::LandingFuel)
    } else {
        Ok(())
    }
}

/// The verdict on a loading: its limits first, then its point `p` against the envelope.
pub open spec fn verdict(plane: PlaneData, items: Map<Kind, WeightLever>, p: CgPoint) -> Result<(), FailReason> {
    if limits_verdict(plane, items) is Err {
        limits_verdict(plane, items)
    } else {
        containment(plane.vertices@, p, false)
    }
}

/// The verdict before take-off.
pub open spec fn takeoff_verdict(plane: PlaneData, items: Map<Kind, WeightLever>) -> Result<(), FailReason> {
    verdict(plane, items, takeoff_point(items))
}

/// The verdict at landing.
pub open spec fn landing_verdict(plane: PlaneData, items: Map<Kind, WeightLever>) -> Result<(), FailReason> {
    verdict(plane, items, landing_point(items))
}

/// Loading more of one item at the same lever strictly increases the total
/// weight, by exactly the added amount, so it can only bring the loading
/// closer to (or keep it beyond) the maximum take-off weight.
pub proof fn lemma_heavier_item_heavier_total(
    plane: PlaneData,
    items: Map<Kind, WeightLever>,
    k: Kind,
    weight: i32,
)
    requires
        items.contains_key(k),
        items[k].weight < weight,
    ensures
        ({
            let heavier = items.insert(k, WeightLever { weight, lever: items[k].lever });
            &&& total_weight(heavier, seq![]) == total_weight(items, seq![]) + (weight - items[k].weight)
            &&& takeoff_point(heavier).weight > takeoff_point(items).weight
            &&& plane.max_weights.max_take_off_weight - takeoff_point(heavier).weight
                < plane.max_weights.max_take_off_weight - takeoff_point(items).weight
            &&& limits_verdict(plane, items) == Err::<(), FailReason>(FailReason::MaxTakeOffWeight)
                ==> limits_verdict(plane, heavier) == Err::<(), FailReason>(FailReason::MaxTakeOffWeight)
        }),
{
    let heavier = items.insert(k, WeightLever { weight, lever: items[k].lever });
    lemma_upto_insert(items, seq![], k, WeightLever { weight, lever: items[k].lever }, KIND_COUNT as nat);
    lemma_kind_index_bijective(k);
    lemma_total_bounds(items, seq![]);
    lemma_total_bounds(heavier, seq![]);
}

/// Whether the item of kind `k` is loaded beyond `limit`.
fn is_over_limit(prop: &PlaneProperties, k: Kind, limit: Option<i32>) -> (r: bool)
    ensures
        r == over_limit(prop@, k, limit),
{
    match limit {
        Some(max) => match prop.get(k) {
            Some(item) => item.weight > max,
            None => false,
        },
        None => false,
    }
}

/// The weight of the item of kind `k`, zero when absent.
fn weight_or_zero(prop: &PlaneProperties, k: Kind) -> (r: i64)
    ensures
        r == item_weight(prop@, k),
{
    match prop.get(k) {
        Some(item) => item.weight as i64,
        None => 0,
    }
}

impl PlaneData {
    /// The configured lever arms as a map from kind.
    pub fn to_lever_map(&self) -> (r: KindMap<i32>)
        ensures
            r@ == lever_map(self.levers),
    {
        let l = &self.levers;
        let mut map: KindMap<i32> = KindMap::new();
        map.insert(Kind::Base, l.base);
        map.insert(Kind::Fuel, l.fuel);
        map.insert(Kind::TripFuel, l.trip_fuel);
        if let Some(value) = l.bagage_back {
            map.insert(Kind::BagageBack, value);
        }
        if let Some(value) = l.bagage_front {
            map.insert(Kind::BagageFront, value);
        }
        if let Some(value) = l.bagage_wings {
            map.insert(Kind::BagageWings, value);
        }
        if let Some(value) = l.bagage {
            map.insert(Kind::Bagage, value);
        }
        map.insert(Kind::Pilot, l.pilot);
        map.insert(Kind::CoPilot, l.co_pilot);
        if let Some(value) = l.passenger_left {
            map.insert(Kind::PaxLeftBack, value);
        }
        if let Some(value) = l.passenger_right {
            map.insert(Kind::PaxRightBack, value);
        }
        assert(map@ =~= lever_map(self.levers));
        map
    }

    /// Places each entered weight at this aircraft's lever for its kind.
    ///
    /// Fails with the first kind (in the fixed order of kinds) for which the
    /// aircraft has no lever.
    pub fn properties(&self, weights: &KindMap<i32>) -> (r: Result<PlaneProperties, Kind>)
        ensures
            r is Ok <==> weights@.dom().subset_of(lever_map(self.levers).dom()),
            r matches Ok(p) ==> p@ == paired(weights@, lever_map(self.levers)),
            r matches Err(k) ==> weights@.contains_key(k) && lever_of(self.levers, k) is None,
    {
        let levers = self.to_lever_map();
        PlaneProperties::from_weights(&levers, weights)
    }

    fn is_mtow_ok(&self, prop: &PlaneProperties) -> (r: Result<(), FailReason>)
        ensures
            r is Ok <==> takeoff_point(prop@).weight <= self.max_weights.max_take_off_weight,
            r is Err ==> r == Err::<(), FailReason>(FailReason::MaxTakeOffWeight),
    {
        let excluded: [Kind; 0] = [];
        let p = aggregate(prop.items(), &excluded);
        assert(excluded@ =~= Seq::<Kind>::empty());
        if p.weight > self.max_weights.max_take_off_weight as i64 {
            return Err(FailReason::MaxTakeOffWeight);
        }
        Ok(())
    }

    fn is_max_wing_load_ok(&self, prop: &PlaneProperties) -> (r: Result<(), FailReason>)
        ensures
            r is Ok <==> !(self.max_weights.max_zero_fuel_mass is Some && wing_load(prop@)
                > self.max_weights.max_zero_fuel_mass->Some_0),
            r is Err ==> r == Err::<(), FailReason>(FailReason::MaxWingLoad),
    {
        if let Some(max_weight) = self.max_weights.max_zero_fuel_mass {
            let load = weight_or_zero(prop, Kind::Base) + weight_or_zero(prop, Kind::Pilot)
                + weight_or_zero(prop, Kind::CoPilot) + weight_or_zero(prop, Kind::BagageBack)
                + weight_or_zero(prop, Kind::BagageFront);
            if load > max_weight as i64 {
                return Err(FailReason::MaxWingLoad);
            }
        }
        Ok(())
    }

    fn is_bagage_in_wings_ok(&self, prop: &PlaneProperties) -> (r: Result<(), FailReason>)
        ensures
            r is Ok <==> !over_limit(prop@, Kind::BagageWings, self.max_weights.max_bagage_weight_wings),
            r is Err ==> r == Err::<(), FailReason>(FailReason::BagageWings),
    {
        if is_over_limit(prop, Kind::BagageWings, self.max_weights.max_bagage_weight_wings) {
            return Err(FailReason::BagageWings);
        }
        Ok(())
    }

    fn is_bagage_ok(&self, prop: &PlaneProperties) -> (r: Result<(), FailReason>)
        ensures
            r == (if over_limit(prop@, Kind::Bagage, self.max_weights.max_bagage_weight) {
                Err(FailReason::Bagage)
            } else if over_limit(prop@, Kind::BagageBack, self.max_weights.max_bagage_weight_back) {
                Err(FailReason::BagageBack)
            } else if over_limit(prop@, Kind::BagageFront, self.max_weights.max_bagage_weight_front) {
                Err(FailReason::BagageFront)
            } else {
                Ok(())
            }),
    {
        if is_over_limit(prop, Kind::Bagage, self.max_weights.max_bagage_weight) {
            return Err(FailReason::Bagage);
        }
        if is_over_limit(prop, Kind::BagageBack, self.max_weights.max_bagage_weight_back) {
            return Err(FailReason::BagageBack);
        }
        if is_over_limit(prop, Kind::BagageFront, self.max_weights.max_bagage_weight_front) {
            return Err(FailReason::BagageFront);
        }
        Ok(())
    }

    fn is_fuel_weight_ok(&self, prop: &PlaneProperties) -> (r: Result<(), FailReason>)
        ensures
            r is Ok <==> !over_limit(prop@, Kind::Fuel, Some(self.max_weights.max_fuel_weight)),
            r is Err ==> r == Err::<(), FailReason>(FailReason::Fuel),
    {
        if is_over_limit(prop, Kind::Fuel, Some(self.max_weights.max_fuel_weight)) {
            return Err(FailReason::Fuel);
        }
        Ok(())
    }

    fn is_zero_fuel_ok(&self, prop: &PlaneProperties) -> (r: Result<(), FailReason>)
        requires
            zero_fuel_point(prop@).weight > 0,
        ensures
            r is Ok <==> containment(self.vertices@, zero_fuel_point(prop@), false) is Ok,
            r is Err ==> r == Err::<(), FailReason>(FailReason::ZeroFuel),
    {
        let excluded = [Kind::Fuel];
        let p = aggregate(prop.items(), &excluded);
        assert(excluded@ =~= seq![Kind::Fuel]);
        if is_inside_polygon(p, &self.vertices, false).is_err() {
            return Err(FailReason::ZeroFuel);
        }
        Ok(())
    }

    fn is_landing_fuel_ok(&self, prop: &PlaneProperties) -> (r: Result<(), FailReason>)
        ensures
            r is Ok <==> landing_fuel_ok(prop@, self.max_weights.max_fuel_weight),
            r is Err ==> r == Err::<(), FailReason>(FailReason::LandingFuel),
    {
        if let Some(fuel) = prop.get(Kind::TripFuel) {
            if !(fuel.weight > 0 && fuel.weight <= self.max_weights.max_fuel_weight) {
                return Err(FailReason::LandingFuel);
            }
        }
        Ok(())
    }

    /// Runs the scalar checks and the zero-fuel envelope check in order and
    /// reports the first failure.
    pub fn check_limits(&self, prop: &PlaneProperties) -> (r: Result<(), FailReason>)
        requires
            zero_fuel_point(prop@).weight > 0,
        ensures
            r == limits_verdict(*self, prop@),
    {
        self.is_mtow_ok(prop)?;
        self.is_max_wing_load_ok(prop)?;
        self.is_bagage_in_wings_ok(prop)?;
        self.is_bagage_ok(prop)?;
        self.is_fuel_weight_ok(prop)?;
        self.is_zero_fuel_ok(prop)?;
        self.is_landing_fuel_ok(prop)?;
        Ok(())
    }

    /// The centre of gravity of the whole loading.
    pub fn calc_weight_and_balance(&self, prop: &PlaneProperties) -> (r: CgPoint)
        requires
            takeoff_point(prop@).weight > 0,
        ensures
            r == takeoff_point(prop@),
            r.wf(),
    {
        let excluded: [Kind; 0] = [];
        let p = aggregate(prop.items(), &excluded);
        assert(excluded@ =~= Seq::<Kind>::empty());
        p
    }

    /// The centre of gravity once the trip fuel is burnt.
    pub fn calc_landing_weight_and_balance(&self, prop: &PlaneProperties) -> (r: CgPoint)
        requires
            landing_point(prop@).weight > 0,
        ensures
            r == landing_point(prop@),
            r.wf(),
    {
        let excluded = [Kind::TripFuel];
        let p = aggregate(prop.items(), &excluded);
        assert(excluded@ =~= seq![Kind::TripFuel]);
        p
    }

    /// Checks the loading before take-off: the limits in order, then the
    /// centre of gravity against the envelope (its border excluded).
    pub fn is_weight_and_balance_ok(&self, prop: &PlaneProperties) -> (r: Result<(), FailReason>)
        requires
            takeoff_point(prop@).weight > 0,
            zero_fuel_point(prop@).weight > 0,
        ensures
            r == takeoff_verdict(*self, prop@),
    {
        self.check_limits(prop)?;
        let calc = self.calc_weight_and_balance(prop);
        is_inside_polygon(calc, &self.vertices, false)?;
        Ok(())
    }

    /// Checks the loading at landing: the limits in order, then the landing
    /// centre of gravity against the envelope (its border excluded).
    pub fn is_landing_weight_and_balance_ok(&self, prop: &PlaneProperties) -> (r: Result<(), FailReason>)
        requires
            landing_point(prop@).weight > 0,
            zero_fuel_point(prop@).weight > 0,
        ensures
            r == landing_verdict(*self, prop@),
    {
        self.check_limits(prop)?;
        let calc = self.calc_landing_weight_and_balance(prop);
        is_inside_polygon(calc, &self.vertices, false)?;
        Ok(())
    }

    /// The take-off verdict together with the centre of gravity it judged.
    pub fn validate_takeoff(&self, prop: &PlaneProperties) -> (r: (Result<(), FailReason>, CgPoint))
        requires
            takeoff_point(prop@).weight > 0,
            zero_fuel_point(prop@).weight > 0,
        ensures
            r.0 == takeoff_verdict(*self, prop@),
            r.1 == takeoff_point(prop@),
    {
        (self.is_weight_and_balance_ok(prop), self.calc_weight_and_balance(prop))
    }

    /// The landing verdict together with the centre of gravity it judged.
    pub fn validate_landing(&self, prop: &PlaneProperties) -> (r: (Result<(), FailReason>, CgPoint))
        requires
            landing_point(prop@).weight > 0,
            zero_fuel_point(prop@).weight > 0,
        ensures
            r.0 == landing_verdict(*self, prop@),
            r.1 == landing_point(prop@),
    {
        (self.is_landing_weight_and_balance_ok(prop), self.calc_landing_weight_and_balance(prop))
    }
}

} // verus!
