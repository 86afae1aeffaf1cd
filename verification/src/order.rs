//! Layers that finished in any order, back in manifest order.

use std::collections::BTreeMap;

use vstd::prelude::*;

use crate::layer::LayerMeta;

verus! {

/// What was pulled under each number; where a number occurs more than once,
/// what came last.
pub open spec fn by_number(pulled: Seq<(usize, LayerMeta)>) -> Map<usize, LayerMeta>
    decreases pulled.len(),
{
    if pulled.len() == 0 {
        Map::empty()
    } else {
        by_number(pulled.drop_last()).insert(pulled.last().0, pulled.last().1)
    }
}

/// `numbers` rises, and holds the members of `members` and no others.
pub open spec fn lists_rising(numbers: Seq<usize>, members: Set<usize>) -> bool {
    &&& forall|i: int, j: int| 0 <= i < j < numbers.len() ==> numbers[i] < numbers[j]
    &&& forall|n: usize| numbers.contains(n) <==> members.contains(n)
}

/// What was pulled under the numbers, one after the other.
pub open spec fn picked(
    found: Map<usize, LayerMeta>,
    numbers: Seq<usize>,
) -> Seq<LayerMeta> {
    Seq::new(numbers.len(), |i: int| found[numbers[i]])
}

/// `ordered` is what was pulled, one layer for each number, by rising number.
pub open spec fn in_number_order(
    pulled: Seq<(usize, LayerMeta)>,
    ordered: Seq<LayerMeta>,
) -> bool {
    exists|numbers: Seq<usize>| #[trigger]
        lists_rising(numbers, by_number(pulled).dom()) && ordered == picked(
            by_number(pulled),
            numbers,
        )
}

/// A sequence of numbers that increases in the order of `usize` rises.
proof fn lemma_increasing_rises(numbers: Seq<usize>)
    requires
        vstd::std_specs::btree::increasing_seq(numbers),
    ensures
        forall|i: int, j: int| 0 <= i < j < numbers.len() ==> numbers[i] < numbers[j],
{
    assert(vstd::laws_cmp::obeys_cmp::<usize>());
    assert forall|i: int, j: int| 0 <= i < j < numbers.len() implies numbers[i] < numbers[j] by {
        assert(vstd::std_specs::cmp::OrdSpec::cmp_spec(&numbers[i], &numbers[j]) is Less);
    }
}

/// Puts the layers in the order of their numbers.
pub fn sort_layers(pulled: Vec<(usize, LayerMeta)>) -> (ordered: Vec<LayerMeta>)
    ensures
        in_number_order(pulled@, ordered@),
{
    let mut meta_map: BTreeMap<usize, LayerMeta> = BTreeMap::new();
    let mut next: usize = 0;
    while next < pulled.len()
        invariant
            next <= pulled@.len(),
            meta_map@ == by_number(pulled@.take(next as int)),
        decreases pulled@.len() - next,
    {
        let (index, layer_meta) = &pulled[next];
        meta_map.insert(*index, layer_meta.clone());
        proof {
            assert(pulled@.take(next + 1).drop_last() =~= pulled@.take(next as int));
        }
        next = next + 1;
    }
    assert(pulled@.take(pulled@.len() as int) =~= pulled@);
    let ghost found = meta_map@;
    let mut ordered: Vec<LayerMeta> = Vec::new();
    let values = meta_map.values();
    let ghost numbers = choose|numbers: Seq<usize>|
        {
            &&& vstd::std_specs::btree::increasing_seq(numbers)
            &&& numbers.to_set() == found.dom()
            &&& numbers.no_duplicates()
            &&& vstd::std_specs::iter::IteratorSpec::remaining(&values) == numbers.map(|i: int, n: usize| &found[n])
        };
    for layer_meta in iter: values
        invariant
            iter.seq() == numbers.map(|i: int, n: usize| &found[n]),
            ordered@ =~= picked(found, numbers).take(iter.index() as int),
    {
        ordered.push(layer_meta.clone());
    }
    proof {
        lemma_increasing_rises(numbers);
        assert forall|n: usize| numbers.contains(n) <==> found.dom().contains(n) by {
            assert(numbers.to_set().contains(n) <==> numbers.contains(n));
        }
        assert(lists_rising(numbers, found.dom()));
        assert(ordered@ =~= picked(found, numbers));
    }
    ordered
}

} // verus!
