//! Item kinds, and maps keyed by them.

use vstd::prelude::*;

verus! {

/// The categories of weighted items that can be loaded into an aircraft.
#[derive(Clone, Copy, PartialEq, Eq, Structural, Debug, Hash, PartialOrd, Ord, Default)]
pub enum Kind {
    #[default]
    NoValue,
    Base,
    Fuel,
    Bagage,
    BagageFront,
    BagageBack,
    BagageWings,
    Pilot,
    CoPilot,
    PaxLeftBack,
    PaxRightBack,
    TripFuel,
}

/// Number of variants of [`Kind`].
pub const KIND_COUNT: usize = 12;

/// Position of a kind in the fixed order of all kinds.
pub open spec fn kind_index(k: Kind) -> int {
    match k {
        Kind::NoValue => 0,
        Kind::Base => 1,
        Kind::Fuel => 2,
        Kind::Bagage => 3,
        Kind::BagageFront => 4,
        Kind::BagageBack => 5,
        Kind::BagageWings => 6,
        Kind::Pilot => 7,
        Kind::CoPilot => 8,
        Kind::PaxLeftBack => 9,
        Kind::PaxRightBack => 10,
        Kind::TripFuel => 11,
    }
}

/// The kind at a position of the fixed order (`NoValue` past its end).
pub open spec fn kind_at(i: int) -> Kind {
    if i == 1 {
        Kind::Base
    } else if i == 2 {
        Kind::Fuel
    } else if i == 3 {
        Kind::Bagage
    } else if i == 4 {
        Kind::BagageFront
    } else if i == 5 {
        Kind::BagageBack
    } else if i == 6 {
        Kind::BagageWings
    } else if i == 7 {
        Kind::Pilot
    } else if i == 8 {
        Kind::CoPilot
    } else if i == 9 {
        Kind::PaxLeftBack
    } else if i == 10 {
        Kind::PaxRightBack
    } else if i == 11 {
        Kind::TripFuel
    } else {
        Kind::NoValue
    }
}

/// The order of kinds is a bijection between all kinds and `0..KIND_COUNT`.
pub proof fn lemma_kind_index_bijective(k: Kind)
    ensures
        0 <= kind_index(k) < KIND_COUNT,
        kind_at(kind_index(k)) == k,
{
}

/// The name under which a kind is written in loading data.
pub open spec fn kind_name(k: Kind) -> Seq<char> {
    match k {
        Kind::NoValue => "NoValue"@,
        Kind::Base => "base"@,
        Kind::Fuel => "fuel"@,
        Kind::Bagage => "bagage"@,
        Kind::BagageFront => "bagage_front"@,
        Kind::BagageBack => "bagage_back"@,
        Kind::BagageWings => "bagage_wings"@,
        Kind::Pilot => "pilot"@,
        Kind::CoPilot => "co_pilot"@,
        Kind::PaxLeftBack => "passenger_left"@,
        Kind::PaxRightBack => "passenger_right"@,
        Kind::TripFuel => "trip_fuel"@,
    }
}

impl Kind {
    /// Position of this kind in the fixed order of all kinds.
    pub fn index(&self) -> (r: usize)
        ensures
            r == kind_index(*self),
            r < KIND_COUNT,
    {
        match self {
            Kind::NoValue => 0,
            Kind::Base => 1,
            Kind::Fuel => 2,
            Kind::Bagage => 3,
            Kind::BagageFront => 4,
            Kind::BagageBack => 5,
            Kind::BagageWings => 6,
            Kind::Pilot => 7,
            Kind::CoPilot => 8,
            Kind::PaxLeftBack => 9,
            Kind::PaxRightBack => 10,
            Kind::TripFuel => 11,
        }
    }

    /// The kind at position `i` of the fixed order.
    pub fn from_index(i: usize) -> (r: Kind)
        requires
            i < KIND_COUNT,
        ensures
            r == kind_at(i as int),
            kind_index(r) == i,
    {
        if i == 1 {
            Kind::Base
        } else if i == 2 {
            Kind::Fuel
        } else if i == 3 {
            Kind::Bagage
        } else if i == 4 {
            Kind::BagageFront
        } else if i == 5 {
            Kind::BagageBack
        } else if i == 6 {
            Kind::BagageWings
        } else if i == 7 {
            Kind::Pilot
        } else if i == 8 {
            Kind::CoPilot
        } else if i == 9 {
            Kind::PaxLeftBack
        } else if i == 10 {
            Kind::PaxRightBack
        } else if i == 11 {
            Kind::TripFuel
        } else {
            Kind::NoValue
        }
    }
}

/// Whether two strings hold the same characters.
pub fn same_text(s: &str, t: &str) -> (r: bool)
    ensures
        r == (s@ == t@),
{
    let n = s.unicode_len();
    if n != t.unicode_len() {
        return false;
    }
    let mut i: usize = 0;
    while i < n
        invariant
            n == s@.len(),
            n == t@.len(),
            i <= n,
            forall|j: int| 0 <= j < i ==> s@[j] == t@[j],
        decreases n - i,
    {
        if s.get_char(i) != t.get_char(i) {
            return false;
        }
        i = i + 1;
    }
    assert(s@ =~= t@);
    true
}

/// The kind whose name is `s`, if there is one.
pub open spec fn kind_named(s: Seq<char>) -> Option<Kind> {
    if exists|k: Kind| kind_name(k) == s {
        Some(choose|k: Kind| kind_name(k) == s)
    } else {
        None
    }
}

/// Distinct kinds have distinct names.
pub proof fn lemma_kind_names_distinct(a: Kind, b: Kind)
    ensures
        kind_name(a) == kind_name(b) ==> a == b,
{
    reveal_strlit("NoValue");
    reveal_strlit("base");
    reveal_strlit("fuel");
    reveal_strlit("bagage");
    reveal_strlit("bagage_front");
    reveal_strlit("bagage_back");
    reveal_strlit("bagage_wings");
    reveal_strlit("pilot");
    reveal_strlit("co_pilot");
    reveal_strlit("passenger_left");
    reveal_strlit("passenger_right");
    reveal_strlit("trip_fuel");
    if kind_name(a) == kind_name(b) && a != b {
        assert(kind_name(a).len() != kind_name(b).len() || kind_name(a)[0] != kind_name(b)[0]
            || kind_name(a)[7] != kind_name(b)[7]);
    }
}

impl Kind {
    /// The kind written as `s` in loading data, or `None` for an unknown name.
    pub fn from_name(s: &str) -> (r: Option<Kind>)
        ensures
            r == kind_named(s@),
            r matches Some(k) ==> kind_name(k) == s@,
    {
        let mut i: usize = 0;
        while i < KIND_COUNT
            invariant
                i <= KIND_COUNT,
                forall|j: int| 0 <= j < i ==> kind_name(#[trigger] kind_at(j)) != s@,
            decreases KIND_COUNT - i,
        {
            let k = Kind::from_index(i);
            if same_text(s, k.name()) {
                proof {
                    assert forall|k2: Kind| kind_name(k2) == s@ implies k2 == k by {
                        lemma_kind_names_distinct(k, k2);
                    }
                }
                return Some(k);
            }
            i = i + 1;
        }
        proof {
            assert forall|k2: Kind| kind_name(k2) != s@ by {
                lemma_kind_index_bijective(k2);
                assert(kind_name(kind_at(kind_index(k2))) != s@);
            }
        }
        None
    }

    /// The name under which this kind is written in loading data.
    pub fn name(&self) -> (r: &'static str)
        ensures
            r@ == kind_name(*self),
    {
        match self {
            Kind::NoValue => "NoValue",
            Kind::Base => "base",
            Kind::Fuel => "fuel",
            Kind::Bagage => "bagage",
            Kind::BagageFront => "bagage_front",
            Kind::BagageBack => "bagage_back",
            Kind::BagageWings => "bagage_wings",
            Kind::Pilot => "pilot",
            Kind::CoPilot => "co_pilot",
            Kind::PaxLeftBack => "passenger_left",
            Kind::PaxRightBack => "passenger_right",
            Kind::TripFuel => "trip_fuel",
        }
    }
}

/// A map from item kinds to values: one slot per kind, so keys are unique.
#[derive(Clone, Copy, Debug)]
pub struct KindMap<V> {
    slots: [Option<V>; 12],
}

impl<V> View for KindMap<V> {
    type V = Map<Kind, V>;

    closed spec fn view(&self) -> Map<Kind, V> {
        Map::new(
            |k: Kind| self.slots@[kind_index(k)] is Some,
            |k: Kind| self.slots@[kind_index(k)]->Some_0,
        )
    }
}

impl<V: Copy> KindMap<V> {
    /// The empty map.
    pub fn new() -> (r: Self)
        ensures
            r@ == Map::<Kind, V>::empty(),
    {
        let r = KindMap {
            slots: [None, None, None, None, None, None, None, None, None, None, None, None],
        };
        assert(r@ =~= Map::<Kind, V>::empty());
        r
    }

    /// The value stored for `k`, if any.
    pub fn get(&self, k: Kind) -> (r: Option<V>)
        ensures
            r == (if self@.contains_key(k) {
                Some(self@[k])
            } else {
                None
            }),
    {
        self.slots[k.index()]
    }

    /// Whether a value is stored for `k`.
    pub fn contains_key(&self, k: Kind) -> (r: bool)
        ensures
            r == self@.contains_key(k),
    {
        self.slots[k.index()].is_some()
    }

    /// Stores `v` for `k`, replacing any earlier value.
    pub fn insert(&mut self, k: Kind, v: V)
        ensures
            final(self)@ == old(self)@.insert(k, v),
    {
        let i = k.index();
        self.slots[i] = Some(v);
        proof {
            assert forall|k2: Kind| #[trigger] kind_index(k2) == i implies k2 == k by {
                lemma_kind_index_bijective(k2);
                lemma_kind_index_bijective(k);
            }
        }
        assert(self@ =~= old(self)@.insert(k, v));
    }
}

/// Pairs each entry of `m1` with the value that `m2` holds for the same kind.
///
/// The pairs come in the fixed order of kinds. The result is `Err(k)` where
/// `k` is the first kind (in that order) of `m1` that `m2` lacks.
pub fn iterate_maps<V: Copy>(m1: &KindMap<V>, m2: &KindMap<V>) -> (r: Result<Vec<(Kind, V, V)>, Kind>)
    ensures
        r is Ok <==> m1@.dom().subset_of(m2@.dom()),
        r matches Ok(v) ==> {
            &&& forall|i: int| 0 <= i < v@.len() ==> {
                let (k, a, b) = #[trigger] v@[i];
                m1@.contains_key(k) && a == m1@[k] && b == m2@[k]
            }
            &&& forall|k: Kind| m1@.contains_key(k) ==> exists|i: int|
                0 <= i < v@.len() && (#[trigger] v@[i]).0 == k
            &&& forall|i: int, j: int| 0 <= i < j < v@.len() ==> kind_index(v@[i].0) < kind_index(v@[j].0)
        },
        r matches Err(k) ==> {
            &&& m1@.contains_key(k)
            &&& !m2@.contains_key(k)
            &&& forall|k2: Kind| m1@.contains_key(k2) && kind_index(k2) < kind_index(k) ==> m2@.contains_key(k2)
        },
{
    let mut out: Vec<(Kind, V, V)> = Vec::new();
    let mut i: usize = 0;
    while i < KIND_COUNT
        invariant
            i <= KIND_COUNT,
            forall|k2: Kind| m1@.contains_key(k2) && kind_index(k2) < i ==> m2@.contains_key(k2),
            forall|j: int| 0 <= j < out@.len() ==> {
                let (k, a, b) = #[trigger] out@[j];
                m1@.contains_key(k) && a == m1@[k] && b == m2@[k] && kind_index(k) < i
            },
            forall|k: Kind| m1@.contains_key(k) && kind_index(k) < i ==> exists|j: int|
                0 <= j < out@.len() && (#[trigger] out@[j]).0 == k,
            forall|j: int, l: int| 0 <= j < l < out@.len() ==> kind_index(out@[j].0) < kind_index(out@[l].0),
        decreases KIND_COUNT - i,
    {
        let k = Kind::from_index(i);
        match m1.get(k) {
            Some(a) => match m2.get(k) {
                Some(b) => {
                    let ghost before = out@;
                    out.push((k, a, b));
                    proof {
                        assert forall|k3: Kind| m1@.contains_key(k3) && kind_index(k3) < i + 1 implies exists|j: int|
                            0 <= j < out@.len() && (#[trigger] out@[j]).0 == k3 by {
                            if kind_index(k3) == i {
                                lemma_kind_index_bijective(k3);
                                assert(out@[before.len() as int].0 == k3);
                            } else {
                                let j = choose|j: int| 0 <= j < before.len() && (#[trigger] before[j]).0 == k3;
                                assert(out@[j] == before[j]);
                            }
                        }
                    }
                },
                None => {
                    proof {
                        lemma_kind_index_bijective(k);
                    }
                    return Err(k);
                },
            },
            None => {
                proof {
                    assert forall|k3: Kind| m1@.contains_key(k3) && kind_index(k3) < i + 1 implies exists|j: int|
                        0 <= j < out@.len() && (#[trigger] out@[j]).0 == k3 by {
                        lemma_kind_index_bijective(k3);
                    }
                }
            },
        }
        i = i + 1;
    }
    proof {
        assert forall|k: Kind| m1@.contains_key(k) implies m2@.contains_key(k) by {
            lemma_kind_index_bijective(k);
        }
    }
    Ok(out)
}

} // verus!
