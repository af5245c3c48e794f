//! A two-seat loading: base weight, fuel, pilot and passenger.

use vstd::prelude::*;

use crate::aggregate::WeightLever;
use crate::four_seater::moment;
use crate::kinds::{Kind, KindMap};
use crate::planes::PlaneProperties;

verus! {

/// Whether a sum counts the fuel.
#[derive(Clone, Copy, PartialEq, Eq, Structural, Debug)]
pub enum UseFuel {
    Yes,
    No,
}

#[derive(Clone, Copy, Debug)]
pub struct TwoSeater {
    pub base_weight: WeightLever,
    pub fuel: WeightLever,
    pub w_pic: WeightLever,
    pub w_pax: WeightLever,
}

impl TwoSeater {
    /// The weight of the loading, with or without its fuel.
    pub fn sum_weight(&self, use_fuel: UseFuel) -> (r: i64)
        ensures
            r == self.base_weight.weight + self.w_pic.weight + self.w_pax.weight + if use_fuel == UseFuel::Yes {
                self.fuel.weight as int
            } else {
                0
            },
    {
        let without_fuel = self.base_weight.weight as i64 + self.w_pic.weight as i64 + self.w_pax.weight as i64;
        if use_fuel == UseFuel::Yes {
            without_fuel + self.fuel.weight as i64
        } else {
            without_fuel
        }
    }

    /// The moment of the loading, with or without its fuel.
    pub fn sum_torque(&self, use_fuel: UseFuel) -> (r: i128)
        ensures
            r == moment(self.base_weight) + moment(self.w_pic) + moment(self.w_pax) + if use_fuel
                == UseFuel::Yes {
                moment(self.fuel)
            } else {
                0
            },
    {
        let without_fuel = self.base_weight.torque() as i128 + self.w_pic.torque() as i128
            + self.w_pax.torque() as i128;
        if use_fuel == UseFuel::Yes {
            without_fuel + self.fuel.torque() as i128
        } else {
            without_fuel
        }
    }

    /// The same loading as a set of items: the passenger is the co-pilot.
    pub fn properties(&self) -> (r: PlaneProperties)
        ensures
            r@ == map![
                Kind::Base => self.base_weight,
                Kind::Fuel => self.fuel,
                Kind::Pilot => self.w_pic,
                Kind::CoPilot => self.w_pax,
            ],
    {
        let mut items: KindMap<WeightLever> = KindMap::new();
        items.insert(Kind::Base, self.base_weight);
        items.insert(Kind::Fuel, self.fuel);
        items.insert(Kind::Pilot, self.w_pic);
        items.insert(Kind::CoPilot, self.w_pax);
        PlaneProperties::new(items)
    }
}

/// Collects the items of a [`TwoSeater`]; an item never set is empty.
#[derive(Clone, Copy, Debug)]
pub struct TwoSeaterBuilder {
    base_weight: WeightLever,
    fuel: WeightLever,
    w_pic: WeightLever,
    w_pax: WeightLever,
}

impl Default for TwoSeaterBuilder {
    fn default() -> (r: TwoSeaterBuilder)
        ensures
            r.build_spec() == (TwoSeater {
                base_weight: WeightLever { weight: 0, lever: 0 },
                fuel: WeightLever { weight: 0, lever: 0 },
                w_pic: WeightLever { weight: 0, lever: 0 },
                w_pax: WeightLever { weight: 0, lever: 0 },
            }),
    {
        TwoSeaterBuilder {
            base_weight: WeightLever::new(0, 0),
            fuel: WeightLever::new(0, 0),
            w_pic: WeightLever::new(0, 0),
            w_pax: WeightLever::new(0, 0),
        }
    }
}

impl TwoSeaterBuilder {
    /// The loading that [`TwoSeaterBuilder::build`] returns.
    pub closed spec fn build_spec(self) -> TwoSeater {
        TwoSeater { base_weight: self.base_weight, fuel: self.fuel, w_pic: self.w_pic, w_pax: self.w_pax }
    }

    pub fn fuel(&mut self, fuel: WeightLever) -> (r: &TwoSeaterBuilder)
        ensures
            final(self).build_spec() == (TwoSeater { fuel, ..old(self).build_spec() }),
            *r == *final(self),
    {
        self.fuel = fuel;
        self
    }

    pub fn pic(&mut self, w_pic: WeightLever) -> (r: &TwoSeaterBuilder)
        ensures
            final(self).build_spec() == (TwoSeater { w_pic, ..old(self).build_spec() }),
            *r == *final(self),
    {
        self.w_pic = w_pic;
        self
    }

    pub fn pax(&mut self, pax: WeightLever) -> (r: &TwoSeaterBuilder)
        ensures
            final(self).build_spec() == (TwoSeater { w_pax: pax, ..old(self).build_spec() }),
            *r == *final(self),
    {
        self.w_pax = pax;
        self
    }

    pub fn base_weight(&mut self, base_weight: WeightLever) -> (r: &TwoSeaterBuilder)
        ensures
            final(self).build_spec() == (TwoSeater { base_weight, ..old(self).build_spec() }),
            *r == *final(self),
    {
        self.base_weight = base_weight;
        self
    }

    pub fn build(self) -> (r: TwoSeater)
        ensures
            r == self.build_spec(),
    {
        TwoSeater { base_weight: self.base_weight, fuel: self.fuel, w_pic: self.w_pic, w_pax: self.w_pax }
    }
}

} // verus!
