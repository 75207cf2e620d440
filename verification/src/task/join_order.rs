//! Joining many handles: the order of the joins changes no result.

use crate::task::failure::joins_to;
use crate::task::failure::JoinFailure;
use crate::task::failure::NativeFailure;
use vstd::prelude::*;
use vstd::seq_lib::to_multiset_build;
use vstd::seq_lib::to_multiset_remove;
use vstd::set_lib::lemma_int_range;
use vstd::set_lib::lemma_subset_equality;
use vstd::set_lib::set_int_range;

verus! {

/// Whether `order` is an order in which `count` handles are joined, each once:
/// `order[step]` is the position of the handle that is joined at `step`.
pub open spec fn is_join_order(order: Seq<int>, count: nat) -> bool {
    &&& order.len() == count
    &&& forall|step: int| 0 <= step < order.len() ==> 0 <= #[trigger] order[step] < count
    &&& order.no_duplicates()
}

/// The values that the tasks produced, in the order in which they are joined.
pub open spec fn values_in_order<T>(produced: Seq<T>, order: Seq<int>) -> Seq<T> {
    Seq::new(order.len(), |step: int| produced[order[step]])
}

/// A join order omits no handle: every position is joined at some step.
pub proof fn lemma_join_order_omits_none(order: Seq<int>, count: nat, position: int)
    requires
        is_join_order(order, count),
        0 <= position < count,
    ensures
        order.contains(position),
{
    broadcast use vstd::seq_lib::seq_to_set_is_finite;

    let joined_positions = order.to_set();
    let all_positions = set_int_range(0, count as int);
    order.unique_seq_to_set();
    lemma_int_range(0, count as int);
    assert(joined_positions.subset_of(all_positions)) by {
        assert forall|p: int| joined_positions.contains(p) implies all_positions.contains(p) by {
            let step = choose|step: int| 0 <= step < order.len() && order[step] == p;
            assert(0 <= order[step] < count);
        }
    }
    lemma_subset_equality(joined_positions, all_positions);
    assert(all_positions.contains(position));
    assert(order.contains(position));
}

/// Joined in any order, the tasks' values are the same values, each as often as
/// it was produced.
pub proof fn lemma_values_in_order_are_the_values<T>(produced: Seq<T>, order: Seq<int>)
    requires
        is_join_order(order, produced.len()),
    ensures
        values_in_order(produced, order).to_multiset() =~= produced.to_multiset(),
    decreases produced.len(),
{
    broadcast use vstd::multiset::group_multiset_axioms;

    let values = values_in_order(produced, order);
    if produced.len() == 0 {
        assert(values =~= produced);
    } else {
        let last = produced.len() - 1;
        lemma_join_order_omits_none(order, produced.len(), last);
        let at = choose|step: int| 0 <= step < order.len() && order[step] == last;
        let fewer = produced.drop_last();
        let rest = order.remove(at);
        assert(is_join_order(rest, fewer.len())) by {
            assert forall|step: int| 0 <= step < rest.len() implies 0 <= #[trigger] rest[step]
                < fewer.len() by {
                let before = if step < at {
                    step
                } else {
                    step + 1
                };
                assert(rest[step] == order[before]);
                assert(order[before] != order[at]);
            }
            assert forall|i: int, j: int| 0 <= i < rest.len() && 0 <= j < rest.len() && i != j
                implies rest[i] != rest[j] by {
                let before_i = if i < at {
                    i
                } else {
                    i + 1
                };
                let before_j = if j < at {
                    j
                } else {
                    j + 1
                };
                assert(rest[i] == order[before_i]);
                assert(rest[j] == order[before_j]);
            }
        }
        lemma_values_in_order_are_the_values(fewer, rest);
        assert(values.remove(at) =~= values_in_order(fewer, rest)) by {
            assert forall|step: int| 0 <= step < rest.len() implies values.remove(at)[step]
                == values_in_order(fewer, rest)[step] by {
                let before = if step < at {
                    step
                } else {
                    step + 1
                };
                assert(rest[step] == order[before]);
                assert(order[before] != order[at]);
                assert(values.remove(at)[step] == values[before]);
            }
        }
        to_multiset_remove(values, at);
        assert(produced =~= fewer.push(produced[last]));
        to_multiset_build(fewer, produced[last]);
        assert(values[at] == produced[last]);
        assert(values.to_multiset().count(values[at]) > 0) by {
            values.to_multiset_ensures();
            assert(values.contains(values[at]));
        }
        assert(values.to_multiset() =~= values.to_multiset().remove(values[at]).insert(values[at]));
    }
}

/// The order of joins changes nothing. Where every task completed with its value,
/// each join yields the value of the task that it joins, whatever the order; no
/// task is left out and none is joined twice, so the joins yield the tasks'
/// values, each as often as it was produced.
pub proof fn lemma_join_order_changes_nothing<T>(
    produced: Seq<T>,
    native: Seq<Result<T, NativeFailure>>,
    order: Seq<int>,
    joined: Seq<Result<T, JoinFailure>>,
)
    requires
        native.len() == produced.len(),
        forall|position: int|
            0 <= position < native.len() ==> #[trigger] native[position] == Ok::<
                T,
                NativeFailure,
            >(produced[position]),
        is_join_order(order, produced.len()),
        joined.len() == order.len(),
        forall|step: int|
            0 <= step < order.len() ==> joins_to(native[order[step]], #[trigger] joined[step]),
    ensures
        forall|step: int|
            0 <= step < order.len() ==> #[trigger] joined[step] == Ok::<T, JoinFailure>(
                produced[order[step]],
            ),
        forall|position: int|
            0 <= position < produced.len() ==> #[trigger] order.contains(position),
        values_in_order(produced, order).to_multiset() =~= produced.to_multiset(),
{
    assert forall|step: int| 0 <= step < order.len() implies #[trigger] joined[step] == Ok::<
        T,
        JoinFailure,
    >(produced[order[step]]) by {
        assert(0 <= order[step] < native.len());
        assert(native[order[step]] == Ok::<T, NativeFailure>(produced[order[step]]));
    }
    assert forall|position: int| 0 <= position < produced.len() implies #[trigger] order.contains(
        position,
    ) by {
        lemma_join_order_omits_none(order, produced.len(), position);
    }
    lemma_values_in_order_are_the_values(produced, order);
}

} // verus!
