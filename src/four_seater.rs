//! A four-seat loading with one named item per seat, fuel and base weight.

use vstd::prelude::*;

use crate::aggregate::WeightLever;
use crate::kinds::{Kind, KindMap};
use crate::planes::PlaneProperties;

verus! {

#[derive(Clone, Copy, Debug)]
pub struct FourSeater {
    pub base_weight: WeightLever,
    pub fuel: WeightLever,
    pub pic: WeightLever,
    pub pax_front: WeightLever,
    pub pax_left_back: WeightLever,
    pub pax_right_back: WeightLever,
}

/// The moment of one item about the datum.
pub open spec fn moment(wl: WeightLever) -> int {
    wl.weight * wl.lever
}

impl FourSeater {
    /// The weight of all six items.
    pub fn sum_weight(&self) -> (r: i64)
        ensures
            r == self.base_weight.weight + self.fuel.weight + self.pic.weight + self.pax_front.weight
                + self.pax_left_back.weight + self.pax_right_back.weight,
    {
        self.base_weight.weight as i64 + self.fuel.weight as i64 + self.pic.weight as i64
            + self.pax_front.weight as i64 + self.pax_left_back.weight as i64
            + self.pax_right_back.weight as i64
    }

    /// The moment of all six items.
    pub fn sum_torque(&self) -> (r: i128)
        ensures
            r == moment(self.base_weight) + moment(self.fuel) + moment(self.pic) + moment(
                self.pax_front,
            ) + moment(self.pax_left_back) + moment(self.pax_right_back),
    {
        self.base_weight.torque() as i128 + self.fuel.torque() as i128 + self.pic.torque() as i128
            + self.pax_front.torque() as i128 + self.pax_left_back.torque() as i128
            + self.pax_right_back.torque() as i128
    }

    /// The same loading as a set of items: the pilot in command is the
    /// pilot, the front passenger the co-pilot.
    pub fn properties(&self) -> (r: PlaneProperties)
        ensures
            r@ == map![
                Kind::Base => self.base_weight,
                Kind::Fuel => self.fuel,
                Kind::Pilot => self.pic,
                Kind::CoPilot => self.pax_front,
                Kind::PaxLeftBack => self.pax_left_back,
                Kind::PaxRightBack => self.pax_right_back,
            ],
    {
        let mut items: KindMap<WeightLever> = KindMap::new();
        items.insert(Kind::Base, self.base_weight);
        items.insert(Kind::Fuel, self.fuel);
        items.insert(Kind::Pilot, self.pic);
        items.insert(Kind::CoPilot, self.pax_front);
        items.insert(Kind::PaxLeftBack, self.pax_left_back);
        items.insert(Kind::PaxRightBack, self.pax_right_back);
        PlaneProperties::new(items)
    }
}

/// Collects the items of a [`FourSeater`]; an item never set is empty.
#[derive(Clone, Copy, Debug, Default)]
pub struct FourSeaterBuilder {
    base_weight: WeightLever,
    fuel: WeightLever,
    pic: WeightLever,
    pax_front: WeightLever,
    pax_left_back: WeightLever,
    pax_right_back: WeightLever,
}

impl FourSeaterBuilder {
    /// A builder with every item empty.
    pub fn new() -> (r: FourSeaterBuilder)
        ensures
            r.build_spec() == (FourSeater {
                base_weight: WeightLever { weight: 0, lever: 0 },
                fuel: WeightLever { weight: 0, lever: 0 },
                pic: WeightLever { weight: 0, lever: 0 },
                pax_front: WeightLever { weight: 0, lever: 0 },
                pax_left_back: WeightLever { weight: 0, lever: 0 },
                pax_right_back: WeightLever { weight: 0, lever: 0 },
            }),
    {
        let empty = WeightLever::new(0, 0);
        FourSeaterBuilder {
            base_weight: empty,
            fuel: empty,
            pic: empty,
            pax_front: empty,
            pax_left_back: empty,
            pax_right_back: empty,
        }
    }

    /// The loading that [`FourSeaterBuilder::build`] returns.
    pub closed spec fn build_spec(self) -> FourSeater {
        FourSeater {
            base_weight: self.base_weight,
            fuel: self.fuel,
            pic: self.pic,
            pax_front: self.pax_front,
            pax_left_back: self.pax_left_back,
            pax_right_back: self.pax_right_back,
        }
    }

    pub fn fuel(&mut self, fuel: WeightLever) -> (r: &FourSeaterBuilder)
        ensures
            final(self).build_spec() == (FourSeater { fuel, ..old(self).build_spec() }),
            *r == *final(self),
    {
        self.fuel = fuel;
        self
    }

    pub fn pic(&mut self, w_pic: WeightLever) -> (r: &FourSeaterBuilder)
        ensures
            final(self).build_spec() == (FourSeater { pic: w_pic, ..old(self).build_spec() }),
            *r == *final(self),
    {
        self.pic = w_pic;
        self
    }

    pub fn pax_front(&mut self, pax: WeightLever) -> (r: &FourSeaterBuilder)
        ensures
            final(self).build_spec() == (FourSeater { pax_front: pax, ..old(self).build_spec() }),
            *r == *final(self),
    {
        self.pax_front = pax;
        self
    }

    pub fn pax_left_back(&mut self, pax: WeightLever) -> (r: &FourSeaterBuilder)
        ensures
            final(self).build_spec() == (FourSeater { pax_left_back: pax, ..old(self).build_spec() }),
            *r == *final(self),
    {
        self.pax_left_back = pax;
        self
    }

    pub fn pax_right_back(&mut self, pax: WeightLever) -> (r: &FourSeaterBuilder)
        ensures
            final(self).build_spec() == (FourSeater { pax_right_back: pax, ..old(self).build_spec() }),
            *r == *final(self),
    {
        self.pax_right_back = pax;
        self
    }

    pub fn base_weight(&mut self, base_weight: WeightLever) -> (r: &FourSeaterBuilder)
        ensures
            final(self).build_spec() == (FourSeater { base_weight, ..old(self).build_spec() }),
            *r == *final(self),
    {
        self.base_weight = base_weight;
        self
    }

    pub fn build(self) -> (r: FourSeater)
        ensures
            r == self.build_spec(),
    {
        FourSeater {
            base_weight: self.base_weight,
            fuel: self.fuel,
            pic: self.pic,
            pax_front: self.pax_front,
            pax_left_back: self.pax_left_back,
            pax_right_back: self.pax_right_back,
        }
    }
}

} // verus!
