use vstd::prelude::*;
use vstd::relations::{sorted_by, total_ordering};
use vstd::seq_lib::lemma_sorted_unique;

verus! {

/// The order `<=` on `u64`.
pub open spec fn ascending() -> spec_fn(u64, u64) -> bool {
    |a: u64, b: u64| a <= b
}

/// `<=` is a total order.
pub proof fn lemma_ascending_is_total()
    ensures
        total_ordering(ascending()),
{
    let leq = ascending();
    assert(vstd::relations::reflexive(leq));
    assert(vstd::relations::antisymmetric(leq));
    assert(vstd::relations::transitive(leq));
    assert(vstd::relations::strongly_connected(leq));
}

/// Merges two ascending vectors into one.
fn merge(left: &Vec<u64>, right: &Vec<u64>) -> (merged: Vec<u64>)
    requires
        sorted_by(left@, ascending()),
        sorted_by(right@, ascending()),
    ensures
        sorted_by(merged@, ascending()),
        merged@.to_multiset() == left@.to_multiset().add(right@.to_multiset()),
{
    broadcast use vstd::seq_lib::group_to_multiset_ensures;
    broadcast use vstd::multiset::group_multiset_axioms;

    let mut merged: Vec<u64> = Vec::new();
    let mut i: usize = 0;
    let mut j: usize = 0;
    proof {
        assert(left@.take(0) =~= Seq::<u64>::empty());
        assert(right@.take(0) =~= Seq::<u64>::empty());
        assert(merged@.to_multiset() =~= left@.take(0).to_multiset().add(
            right@.take(0).to_multiset(),
        ));
    }
    while i < left.len() || j < right.len()
        invariant
            i <= left@.len(),
            j <= right@.len(),
            sorted_by(left@, ascending()),
            sorted_by(right@, ascending()),
            sorted_by(merged@, ascending()),
            merged@.to_multiset() == left@.take(i as int).to_multiset().add(
                right@.take(j as int).to_multiset(),
            ),
            forall|k: int|
                0 <= k < merged@.len() && i < left@.len() ==> #[trigger] merged@[k] <= left@[i as int],
            forall|k: int|
                0 <= k < merged@.len() && j < right@.len() ==> #[trigger] merged@[k]
                    <= right@[j as int],
        decreases left@.len() - i + right@.len() - j,
    {
        let ghost before = merged@;
        if j == right.len() || (i < left.len() && left[i] <= right[j]) {
            let value = left[i];
            merged.push(value);
            proof {
                assert(left@.take(i + 1) =~= left@.take(i as int).push(value));
                before.to_multiset_ensures();
                left@.take(i as int).to_multiset_ensures();
                assert(merged@ =~= before.push(value));
                assert(merged@.to_multiset() =~= before.to_multiset().insert(value));
                assert(left@.take(i + 1).to_multiset() =~= left@.take(i as int).to_multiset().insert(
                    value,
                ));
                assert(merged@.to_multiset() =~= left@.take(i + 1).to_multiset().add(
                    right@.take(j as int).to_multiset(),
                ));
                assert forall|a: int, b: int| 0 <= a < b < merged@.len() implies ascending()(
                    merged@[a],
                    merged@[b],
                ) by {
                    if b < before.len() {
                        assert(ascending()(before[a], before[b]));
                    }
                }
                if i + 1 < left@.len() {
                    assert(ascending()(left@[i as int], left@[i + 1]));
                }
            }
            i = i + 1;
        } else {
            let value = right[j];
            merged.push(value);
            proof {
                assert(right@.take(j + 1) =~= right@.take(j as int).push(value));
                before.to_multiset_ensures();
                right@.take(j as int).to_multiset_ensures();
                assert(merged@ =~= before.push(value));
                assert(merged@.to_multiset() =~= before.to_multiset().insert(value));
                assert(right@.take(j + 1).to_multiset() =~= right@.take(
                    j as int,
                ).to_multiset().insert(value));
                assert(merged@.to_multiset() =~= left@.take(i as int).to_multiset().add(
                    right@.take(j + 1).to_multiset(),
                ));
                assert forall|a: int, b: int| 0 <= a < b < merged@.len() implies ascending()(
                    merged@[a],
                    merged@[b],
                ) by {
                    if b < before.len() {
                        assert(ascending()(before[a], before[b]));
                    }
                }
                if j + 1 < right@.len() {
                    assert(ascending()(right@[j as int], right@[j + 1]));
                }
            }
            j = j + 1;
        }
    }
    proof {
        assert(left@.take(i as int) =~= left@);
        assert(right@.take(j as int) =~= right@);
    }
    merged
}

/// The values of `values[low..high]` in ascending order.
fn sort_range(values: &Vec<u64>, low: usize, high: usize) -> (sorted: Vec<u64>)
    requires
        low <= high <= values@.len(),
    ensures
        sorted_by(sorted@, ascending()),
        sorted@.to_multiset() == values@.subrange(low as int, high as int).to_multiset(),
    decreases high - low,
{
    broadcast use vstd::seq_lib::group_to_multiset_ensures;

    if high - low <= 1 {
        let mut sorted: Vec<u64> = Vec::new();
        if high > low {
            sorted.push(values[low]);
        }
        assert(sorted@ =~= values@.subrange(low as int, high as int));
        return sorted;
    }
    let middle = low + (high - low) / 2;
    let left = sort_range(values, low, middle);
    let right = sort_range(values, middle, high);
    proof {
        let first = values@.subrange(low as int, middle as int);
        let second = values@.subrange(middle as int, high as int);
        assert(values@.subrange(low as int, high as int) =~= first + second);
        vstd::seq_lib::lemma_multiset_commutative(first, second);
    }
    merge(&left, &right)
}

/// Sorts `values` ascending.
pub fn sort_ascending(values: &mut Vec<u64>)
    ensures
        final(values)@ == old(values)@.sort_by(ascending()),
{
    let ghost before = values@;
    let sorted = sort_range(values, 0, values.len());
    *values = sorted;
    proof {
        assert(before.subrange(0, before.len() as int) =~= before);
        lemma_ascending_is_total();
        before.lemma_sort_by_ensures(ascending());
        lemma_sorted_unique(values@, before.sort_by(ascending()), ascending());
    }
}

/// Every value of a sequence occurs in its sorted form and the other way
/// round; the sorted form has the same length.
pub proof fn lemma_sorted_same_values(values: Seq<u64>)
    ensures
        values.sort_by(ascending()).len() == values.len(),
        sorted_by(values.sort_by(ascending()), ascending()),
        forall|i: int|
            0 <= i < values.len() ==> values.sort_by(ascending()).contains(#[trigger] values[i]),
        forall|i: int|
            0 <= i < values.len() ==> values.contains(#[trigger] values.sort_by(ascending())[i]),
{
    broadcast use vstd::seq_lib::group_to_multiset_ensures;

    let sorted = values.sort_by(ascending());
    lemma_ascending_is_total();
    values.lemma_sort_by_ensures(ascending());
    assert(sorted.len() == sorted.to_multiset().len());
    assert(values.len() == values.to_multiset().len());
    assert forall|i: int| 0 <= i < values.len() implies sorted.contains(#[trigger] values[i]) by {
        assert(values.contains(values[i]));
        assert(values.to_multiset().count(values[i]) > 0);
        assert(sorted.to_multiset().count(values[i]) > 0);
    }
    assert forall|i: int| 0 <= i < values.len() implies values.contains(#[trigger] sorted[i]) by {
        assert(sorted.contains(sorted[i]));
    }
}

} // verus!
