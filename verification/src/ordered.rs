//! Ascending listings of ordered collections.

use std::collections::{BTreeMap, BTreeSet};
use vstd::prelude::*;
use vstd::std_specs::cmp::OrdSpec;
use vstd::std_specs::iter::IteratorSpec;

verus! {

broadcast use {vstd::std_specs::btree::group_btree_axioms, vstd::laws_cmp::group_laws_cmp};

/// `list` names every member of `set` once, in ascending order.
pub open spec fn lists(list: Seq<u32>, set: Set<u32>) -> bool {
    &&& forall|i: int, j: int| 0 <= i < j < list.len() ==> list[i] < list[j]
    &&& list.to_set() == set
}

/// `list` names every key of a token table once, in ascending order.
pub open spec fn lists_tokens(list: Seq<u64>, set: Set<u64>) -> bool {
    &&& forall|i: int, j: int| 0 <= i < j < list.len() ==> list[i] < list[j]
    &&& list.to_set() == set
}

/// The members of a set in ascending order.
pub fn ascending(set: &BTreeSet<u32>) -> (list: Vec<u32>)
    ensures
        lists(list@, set@),
{
    let mut list: Vec<u32> = Vec::new();
    for member in it: set.iter()
        invariant
            list@ == it.seq().unref().take(it.index()),
    {
        list.push(*member);
    }
    proof {
        let all = set.iter().remaining();
        assert(list@ =~= all.unref());
        assert(vstd::laws_cmp::obeys_cmp::<u32>());
        assert(vstd::laws_cmp::obeys_cmp::<&u32>());
        assert(vstd::std_specs::btree::increasing_seq(all));
        assert forall|i: int, j: int| 0 <= i < j < list.len() implies list[i] < list[j] by {
            assert(OrdSpec::cmp_spec(&all[i], &all[j]) is Less);
        }
    }
    list
}

/// The keys of a token table in ascending order.
pub fn ascending_tokens<V>(table: &BTreeMap<u64, V>) -> (list: Vec<u64>)
    ensures
        lists_tokens(list@, table@.dom()),
{
    let mut list: Vec<u64> = Vec::new();
    for token in it: table.keys()
        invariant
            list@ == it.seq().unref().take(it.index()),
    {
        list.push(*token);
    }
    proof {
        let all = table.keys().remaining();
        assert(list@ =~= all.unref());
        assert(vstd::laws_cmp::obeys_cmp::<u64>());
        assert(vstd::laws_cmp::obeys_cmp::<&u64>());
        assert(vstd::std_specs::btree::increasing_seq(all));
        assert forall|i: int, j: int| 0 <= i < j < list.len() implies list[i] < list[j] by {
            assert(OrdSpec::cmp_spec(&all[i], &all[j]) is Less);
        }
    }
    list
}

/// The order of pairs: by the first part, then by the second.
pub open spec fn pair_before(a: (u32, u32), b: (u32, u32)) -> bool {
    a.0 < b.0 || (a.0 == b.0 && a.1 < b.1)
}

/// `list` names every member of a set of pairs once, in ascending order.
pub open spec fn lists_pairs(list: Seq<(u32, u32)>, set: Set<(u32, u32)>) -> bool {
    &&& forall|i: int, j: int| 0 <= i < j < list.len() ==> pair_before(list[i], list[j])
    &&& list.to_set() == set
}

/// The members of a set of pairs in ascending order.
pub fn ascending_pairs(set: &BTreeSet<(u32, u32)>) -> (list: Vec<(u32, u32)>)
    ensures
        lists_pairs(list@, set@),
{
    let mut list: Vec<(u32, u32)> = Vec::new();
    for member in it: set.iter()
        invariant
            list@ == it.seq().unref().take(it.index()),
    {
        list.push(*member);
    }
    proof {
        let all = set.iter().remaining();
        assert(list@ =~= all.unref());
        assert(vstd::laws_cmp::obeys_cmp::<(u32, u32)>());
        assert(vstd::laws_cmp::obeys_cmp::<&(u32, u32)>());
        assert(vstd::std_specs::btree::increasing_seq(all));
        assert forall|i: int, j: int| 0 <= i < j < list.len() implies pair_before(
            list[i],
            list[j],
        ) by {
            assert(OrdSpec::cmp_spec(&all[i], &all[j]) is Less);
        }
    }
    list
}

/// A set has only one ascending listing.
pub proof fn listing_is_unique(a: Seq<u32>, b: Seq<u32>, set: Set<u32>)
    requires
        lists(a, set),
        lists(b, set),
    ensures
        a == b,
    decreases a.len(),
{
    if a.len() == 0 {
        if b.len() > 0 {
            assert(b.to_set().contains(b[0]));
            assert(a.to_set().contains(b[0]));
        }
        assert(a =~= b);
    } else {
        let top = a.last();
        assert(a.to_set().contains(top));
        assert(b.to_set().contains(top));
        let k = choose|k: int| 0 <= k < b.len() && b[k] == top;
        if k < b.len() - 1 {
            assert(b.to_set().contains(b.last()));
            assert(a.to_set().contains(b.last()));
            let m = choose|m: int| 0 <= m < a.len() && a[m] == b.last();
            assert(b[k] < b[b.len() - 1]);
            assert(false);
        }
        let (c, d) = (a.drop_last(), b.drop_last());
        assert forall|x: u32| c.to_set().contains(x) <==> d.to_set().contains(x) by {
            if c.contains(x) {
                let i = choose|i: int| 0 <= i < c.len() && c[i] == x;
                assert(a[i] == x && x < top);
                assert(a.to_set().contains(x));
                assert(b.to_set().contains(x));
                let j = choose|j: int| 0 <= j < b.len() && b[j] == x;
                assert(d[j] == x);
            }
            if d.contains(x) {
                let i = choose|i: int| 0 <= i < d.len() && d[i] == x;
                assert(b[i] == x && x < top);
                assert(b.to_set().contains(x));
                assert(a.to_set().contains(x));
                let j = choose|j: int| 0 <= j < a.len() && a[j] == x;
                assert(c[j] == x);
            }
        }
        assert(c.to_set() =~= d.to_set());
        listing_is_unique(c, d, c.to_set());
        assert(a =~= c.push(top));
        assert(b =~= d.push(top));
    }
}

} // verus!
