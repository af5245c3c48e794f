//! Weighted items and their sum into a centre of gravity.

use vstd::prelude::*;

use vstd::arithmetic::div_mod::{
    lemma_fundamental_div_mod, lemma_fundamental_div_mod_converse, lemma_mod_pos_bound,
};

use crate::kinds::{kind_at, kind_index, lemma_kind_index_bijective, Kind, KindMap, KIND_COUNT};

verus! {

/// A weight placed at a lever arm from the reference datum.
#[derive(Clone, Copy, PartialEq, Eq, Structural, Debug, Default)]
pub struct WeightLever {
    pub weight: i32,
    pub lever: i32,
}

impl WeightLever {
    pub fn new(weight: i32, lever: i32) -> (r: Self)
        ensures
            r.weight == weight,
            r.lever == lever,
    {
        WeightLever { weight, lever }
    }

    /// The moment of this weight about the datum: weight times lever.
    pub fn torque(&self) -> (r: i64)
        ensures
            r == self.weight * self.lever,
    {
        proof {
            lemma_torque_bound(*self);
        }
        (self.weight as i64) * (self.lever as i64)
    }
}

/// Largest magnitude of a single item's torque.
pub const MAX_ITEM_TORQUE: i64 = 0x4000_0000_0000_0000;

/// Bound on the total weight of a set of items.
pub const MAX_TOTAL_WEIGHT: i64 = 0x10_0000_0000;

/// Bound on the total torque of a set of items.
pub const MAX_TOTAL_TORQUE: i128 = 0x8_0000_0000_0000_0000;

pub proof fn lemma_torque_bound(wl: WeightLever)
    ensures
        -MAX_ITEM_TORQUE <= wl.weight * wl.lever <= MAX_ITEM_TORQUE,
{
    let w = wl.weight as int;
    let l = wl.lever as int;
    assert(-0x8000_0000 <= w <= 0x7fff_ffff);
    assert(-0x8000_0000 <= l <= 0x7fff_ffff);
    assert(-0x4000_0000_0000_0000 <= w * l <= 0x4000_0000_0000_0000) by (nonlinear_arith)
        requires
            -0x8000_0000 <= w <= 0x7fff_ffff,
            -0x8000_0000 <= l <= 0x7fff_ffff,
    ;
}

/// The summed weight and torque of a set of items.
///
/// Its centre of gravity lies at lever `torque / weight` (when `weight > 0`).
#[derive(Clone, Copy, PartialEq, Eq, Structural, Debug)]
pub struct CgPoint {
    pub weight: i64,
    pub torque: i128,
}

impl CgPoint {
    /// A point with positive weight and totals in the range that sums of
    /// items reach.
    pub open spec fn wf(&self) -> bool {
        &&& 0 < self.weight <= MAX_TOTAL_WEIGHT
        &&& -MAX_TOTAL_TORQUE <= self.torque <= MAX_TOTAL_TORQUE
    }

    /// The point of a single weight at its lever.
    pub fn from_weight_lever(wl: WeightLever) -> (r: CgPoint)
        ensures
            r.weight == wl.weight,
            r.torque == wl.weight * wl.lever,
            wl.weight > 0 ==> r.wf(),
    {
        let t = wl.torque();
        CgPoint { weight: wl.weight as i64, torque: t as i128 }
    }

    /// The lever of the centre of gravity, rounded down.
    pub fn lever(&self) -> (r: i128)
        requires
            self.wf(),
        ensures
            r == (self.torque as int) / (self.weight as int),
            r * self.weight <= self.torque < (r + 1) * self.weight,
    {
        let w = self.weight as i128;
        let t = self.torque;
        if t >= 0 {
            let q = t / w;
            proof {
                let (ti, wi, qi) = (t as int, w as int, q as int);
                lemma_fundamental_div_mod(ti, wi);
                lemma_mod_pos_bound(ti, wi);
                assert(qi * wi <= ti < (qi + 1) * wi) by (nonlinear_arith)
                    requires
                        ti == wi * qi + ti % wi,
                        0 <= ti % wi < wi,
                ;
            }
            q
        } else {
            let u = -t + w - 1;
            let q = u / w;
            proof {
                let (ti, wi, ui, qi) = (t as int, w as int, u as int, q as int);
                lemma_fundamental_div_mod(ui, wi);
                lemma_mod_pos_bound(ui, wi);
                let ri = -qi;
                assert(ri * wi <= ti < (ri + 1) * wi && 0 <= ti - ri * wi < wi) by (nonlinear_arith)
                    requires
                        ui == wi * qi + ui % wi,
                        0 <= ui % wi < wi,
                        ui == -ti + wi - 1,
                        ri == -qi,
                ;
                lemma_fundamental_div_mod_converse(ti, wi, ri, ti - ri * wi);
            }
            -q
        }
    }
}

/// The weight of kind `k` in `items`, zero when absent.
pub open spec fn item_weight(items: Map<Kind, WeightLever>, k: Kind) -> int {
    if items.contains_key(k) {
        items[k].weight as int
    } else {
        0
    }
}

/// The torque of kind `k` in `items`, zero when absent.
pub open spec fn item_torque(items: Map<Kind, WeightLever>, k: Kind) -> int {
    if items.contains_key(k) {
        items[k].weight * items[k].lever
    } else {
        0
    }
}

/// Sum of the weights of the first `n` kinds (in the fixed order), leaving out `excluded`.
pub open spec fn weight_upto(items: Map<Kind, WeightLever>, excluded: Seq<Kind>, n: nat) -> int
    decreases n,
{
    if n == 0 {
        0
    } else {
        let k = kind_at(n - 1);
        weight_upto(items, excluded, (n - 1) as nat) + if excluded.contains(k) {
            0
        } else {
            item_weight(items, k)
        }
    }
}

/// Sum of the torques of the first `n` kinds (in the fixed order), leaving out `excluded`.
pub open spec fn torque_upto(items: Map<Kind, WeightLever>, excluded: Seq<Kind>, n: nat) -> int
    decreases n,
{
    if n == 0 {
        0
    } else {
        let k = kind_at(n - 1);
        torque_upto(items, excluded, (n - 1) as nat) + if excluded.contains(k) {
            0
        } else {
            item_torque(items, k)
        }
    }
}

/// Total weight of the items whose kind is not in `excluded`.
pub open spec fn total_weight(items: Map<Kind, WeightLever>, excluded: Seq<Kind>) -> int {
    weight_upto(items, excluded, KIND_COUNT as nat)
}

/// Total torque of the items whose kind is not in `excluded`.
pub open spec fn total_torque(items: Map<Kind, WeightLever>, excluded: Seq<Kind>) -> int {
    torque_upto(items, excluded, KIND_COUNT as nat)
}

/// The summed point of the items whose kind is not in `excluded`.
pub open spec fn point_of(items: Map<Kind, WeightLever>, excluded: Seq<Kind>) -> CgPoint {
    CgPoint { weight: total_weight(items, excluded) as i64, torque: total_torque(items, excluded) as i128 }
}

/// Partial sums stay within `n` times the bound of one item.
proof fn lemma_upto_bounds(items: Map<Kind, WeightLever>, excluded: Seq<Kind>, n: nat)
    ensures
        -(n * 0x8000_0000) <= weight_upto(items, excluded, n) <= n * 0x8000_0000,
        -(n * MAX_ITEM_TORQUE) <= torque_upto(items, excluded, n) <= n * MAX_ITEM_TORQUE,
    decreases n,
{
    if n > 0 {
        lemma_upto_bounds(items, excluded, (n - 1) as nat);
        let k = kind_at(n - 1);
        if items.contains_key(k) {
            lemma_torque_bound(items[k]);
        }
    }
}

/// Totals of any set of items lie within the bounds of [`CgPoint::wf`].
pub proof fn lemma_total_bounds(items: Map<Kind, WeightLever>, excluded: Seq<Kind>)
    ensures
        -MAX_TOTAL_WEIGHT <= total_weight(items, excluded) <= MAX_TOTAL_WEIGHT,
        -MAX_TOTAL_TORQUE <= total_torque(items, excluded) <= MAX_TOTAL_TORQUE,
{
    lemma_upto_bounds(items, excluded, KIND_COUNT as nat);
}

/// Replacing the item of kind `k` changes a partial sum by the difference
/// of that item alone (when `k` is among the first `n` kinds and counted).
pub proof fn lemma_upto_insert(
    items: Map<Kind, WeightLever>,
    excluded: Seq<Kind>,
    k: Kind,
    v: WeightLever,
    n: nat,
)
    requires
        n <= KIND_COUNT,
    ensures
        weight_upto(items.insert(k, v), excluded, n) == weight_upto(items, excluded, n) + if kind_index(k)
            < n && !excluded.contains(k) {
            v.weight - item_weight(items, k)
        } else {
            0
        },
        torque_upto(items.insert(k, v), excluded, n) == torque_upto(items, excluded, n) + if kind_index(k)
            < n && !excluded.contains(k) {
            v.weight * v.lever - item_torque(items, k)
        } else {
            0
        },
    decreases n,
{
    if n > 0 {
        lemma_upto_insert(items, excluded, k, v, (n - 1) as nat);
        lemma_kind_index_bijective(k);
        let j = kind_at(n - 1);
        lemma_kind_index_bijective(j);
        if j != k {
            assert(item_weight(items.insert(k, v), j) == item_weight(items, j));
            assert(item_torque(items.insert(k, v), j) == item_torque(items, j));
        }
    }
}

/// The items of a listing, each kind keyed to its weight and lever.
pub open spec fn items_of(listing: Seq<(Kind, WeightLever)>) -> Map<Kind, WeightLever>
    decreases listing.len(),
{
    if listing.len() == 0 {
        Map::empty()
    } else {
        items_of(listing.drop_last()).insert(listing.last().0, listing.last().1)
    }
}

/// Whether no kind occurs twice in a listing.
pub open spec fn distinct_kinds(listing: Seq<(Kind, WeightLever)>) -> bool {
    forall|i: int, j: int| 0 <= i < j < listing.len() ==> listing[i].0 != listing[j].0
}

/// The weight of a listing, summed from first to last, leaving out `excluded`.
pub open spec fn listed_weight(listing: Seq<(Kind, WeightLever)>, excluded: Seq<Kind>) -> int
    decreases listing.len(),
{
    if listing.len() == 0 {
        0
    } else {
        listed_weight(listing.drop_last(), excluded) + if excluded.contains(listing.last().0) {
            0
        } else {
            listing.last().1.weight as int
        }
    }
}

/// The torque of a listing, summed from first to last, leaving out `excluded`.
pub open spec fn listed_torque(listing: Seq<(Kind, WeightLever)>, excluded: Seq<Kind>) -> int
    decreases listing.len(),
{
    if listing.len() == 0 {
        0
    } else {
        listed_torque(listing.drop_last(), excluded) + if excluded.contains(listing.last().0) {
            0
        } else {
            listing.last().1.weight * listing.last().1.lever
        }
    }
}

proof fn lemma_items_of_members(listing: Seq<(Kind, WeightLever)>)
    requires
        distinct_kinds(listing),
    ensures
        forall|k: Kind| #[trigger] items_of(listing).contains_key(k) <==> exists|i: int|
            0 <= i < listing.len() && listing[i].0 == k,
        forall|i: int| 0 <= i < listing.len() ==> items_of(listing)[#[trigger] listing[i].0] == listing[i].1,
    decreases listing.len(),
{
    if listing.len() > 0 {
        let rest = listing.drop_last();
        lemma_items_of_members(rest);
        assert forall|k: Kind| #[trigger] items_of(listing).contains_key(k) implies exists|i: int|
            0 <= i < listing.len() && listing[i].0 == k by {
            if k != listing.last().0 {
                assert(items_of(rest).contains_key(k));
                let i = choose|i: int| 0 <= i < rest.len() && rest[i].0 == k;
                assert(listing[i] == rest[i]);
            } else {
                assert(listing[listing.len() - 1].0 == k);
            }
        }
        assert forall|k: Kind| (exists|i: int| 0 <= i < listing.len() && listing[i].0 == k) implies #[trigger] items_of(
            listing,
        ).contains_key(k) by {
            let i = choose|i: int| 0 <= i < listing.len() && listing[i].0 == k;
            if i < listing.len() - 1 {
                assert(rest[i] == listing[i]);
            }
        }
        assert forall|i: int| 0 <= i < listing.len() implies items_of(listing)[#[trigger] listing[i].0]
            == listing[i].1 by {
            if i < listing.len() - 1 {
                assert(rest[i] == listing[i]);
            }
        }
    }
}

/// Aggregation does not depend on order: the total of an item set equals
/// the sum of its items taken in the order of any listing of them.
pub proof fn lemma_aggregate_is_listing_sum(listing: Seq<(Kind, WeightLever)>, excluded: Seq<Kind>)
    requires
        distinct_kinds(listing),
    ensures
        total_weight(items_of(listing), excluded) == listed_weight(listing, excluded),
        total_torque(items_of(listing), excluded) == listed_torque(listing, excluded),
    decreases listing.len(),
{
    if listing.len() == 0 {
        lemma_upto_empty(excluded, KIND_COUNT as nat);
    } else {
        let rest = listing.drop_last();
        let (k, v) = listing.last();
        lemma_aggregate_is_listing_sum(rest, excluded);
        lemma_items_of_members(rest);
        assert(!items_of(rest).contains_key(k)) by {
            if items_of(rest).contains_key(k) {
                let i = choose|i: int| 0 <= i < rest.len() && rest[i].0 == k;
                assert(listing[i] == rest[i]);
            }
        }
        lemma_upto_insert(items_of(rest), excluded, k, v, KIND_COUNT as nat);
        lemma_kind_index_bijective(k);
    }
}

proof fn lemma_upto_empty(excluded: Seq<Kind>, n: nat)
    ensures
        weight_upto(Map::empty(), excluded, n) == 0,
        torque_upto(Map::empty(), excluded, n) == 0,
    decreases n,
{
    if n > 0 {
        lemma_upto_empty(excluded, (n - 1) as nat);
    }
}

/// Reordering a listing of items does not change their centre of gravity.
pub proof fn lemma_aggregate_reorder(
    first: Seq<(Kind, WeightLever)>,
    second: Seq<(Kind, WeightLever)>,
    excluded: Seq<Kind>,
)
    requires
        distinct_kinds(first),
        distinct_kinds(second),
        first.to_multiset() == second.to_multiset(),
    ensures
        items_of(first) == items_of(second),
        point_of(items_of(first), excluded) == point_of(items_of(second), excluded),
        listed_weight(first, excluded) == listed_weight(second, excluded),
        listed_torque(first, excluded) == listed_torque(second, excluded),
{
    lemma_items_of_members(first);
    lemma_items_of_members(second);
    first.to_multiset_ensures();
    second.to_multiset_ensures();
    assert forall|k: Kind| #[trigger] items_of(first).contains_key(k) implies items_of(second).contains_key(k)
        && items_of(first)[k] == items_of(second)[k] by {
        let i = choose|i: int| 0 <= i < first.len() && first[i].0 == k;
        assert(first.contains(first[i]));
        assert(first.to_multiset().count(first[i]) > 0);
        assert(second.contains(first[i]));
        let j = choose|j: int| 0 <= j < second.len() && second[j] == first[i];
        assert(items_of(second)[second[j].0] == second[j].1);
    }
    assert forall|k: Kind| #[trigger] items_of(second).contains_key(k) implies items_of(first).contains_key(k) by {
        let j = choose|j: int| 0 <= j < second.len() && second[j].0 == k;
        assert(second.contains(second[j]));
        assert(second.to_multiset().count(second[j]) > 0);
        assert(first.contains(second[j]));
        let i = choose|i: int| 0 <= i < first.len() && first[i] == second[j];
        assert(first[i].0 == k);
    }
    assert(items_of(first) =~= items_of(second));
    lemma_aggregate_is_listing_sum(first, excluded);
    lemma_aggregate_is_listing_sum(second, excluded);
}

/// Whether `k` occurs in `ks`.
fn listed(ks: &[Kind], k: Kind) -> (r: bool)
    ensures
        r == ks@.contains(k),
{
    let mut i: usize = 0;
    while i < ks.len()
        invariant
            i <= ks@.len(),
            forall|j: int| 0 <= j < i ==> ks@[j] != k,
        decreases ks@.len() - i,
    {
        if ks[i] == k {
            return true;
        }
        i = i + 1;
    }
    false
}

/// Sums the weight and torque of the items whose kind is not in `excluded`.
pub fn aggregate(items: &KindMap<WeightLever>, excluded: &[Kind]) -> (r: CgPoint)
    ensures
        r == point_of(items@, excluded@),
        r.weight == total_weight(items@, excluded@),
        r.torque == total_torque(items@, excluded@),
        r.weight > 0 ==> r.wf(),
{
    let mut w: i64 = 0;
    let mut t: i128 = 0;
    let mut i: usize = 0;
    while i < KIND_COUNT
        invariant
            i <= KIND_COUNT,
            w == weight_upto(items@, excluded@, i as nat),
            t == torque_upto(items@, excluded@, i as nat),
        decreases KIND_COUNT - i,
    {
        proof {
            lemma_upto_bounds(items@, excluded@, (i + 1) as nat);
        }
        let k = Kind::from_index(i);
        if !listed(excluded, k) {
            if let Some(wl) = items.get(k) {
                w = w + wl.weight as i64;
                t = t + wl.torque() as i128;
            }
        }
        i = i + 1;
    }
    proof {
        lemma_total_bounds(items@, excluded@);
    }
    CgPoint { weight: w, torque: t }
}

} // verus!
