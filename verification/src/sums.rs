//! How the cost of a sequence of nodes behaves.
//!
//! The executable code adds the costs up from the front, so the first lemmas
//! relate the sum over a prefix to the sum over the next prefix and to the
//! sum over the whole sequence. The others say what does not change the sum:
//! another order of the same fields, other elements of the same costs.

use vstd::prelude::*;
use crate::analyzer::{elements_cost, fields_cost, Costly};
use crate::ast::{ArrayPredicatePattern, PredicatePattern};

verus! {

/// One more field adds its own cost and the overhead of 100.
pub proof fn lemma_fields_cost_step(fields: Seq<PredicatePattern<'_>>, i: int)
    requires
        0 <= i < fields.len(),
    ensures
        fields_cost(fields.take(i + 1)) == fields_cost(fields.take(i)) + fields[i].spec_cost()
            + 100,
{
    assert(fields.take(i + 1).drop_last() =~= fields.take(i));
}

/// A prefix of the fields costs no more than all of them.
pub proof fn lemma_fields_cost_prefix(fields: Seq<PredicatePattern<'_>>, i: int)
    requires
        0 <= i <= fields.len(),
    ensures
        fields_cost(fields.take(i)) <= fields_cost(fields),
    decreases fields.len() - i,
{
    if i == fields.len() {
        assert(fields.take(i) =~= fields);
    } else {
        lemma_fields_cost_step(fields, i);
        lemma_fields_cost_prefix(fields, i + 1);
    }
}

/// One more element adds its own cost.
pub proof fn lemma_elements_cost_step(elems: Seq<ArrayPredicatePattern<'_>>, i: int)
    requires
        0 <= i < elems.len(),
    ensures
        elements_cost(elems.take(i + 1)) == elements_cost(elems.take(i)) + elems[i].spec_cost(),
{
    assert(elems.take(i + 1).drop_last() =~= elems.take(i));
}

/// A prefix of the elements costs no more than all of them.
pub proof fn lemma_elements_cost_prefix(elems: Seq<ArrayPredicatePattern<'_>>, i: int)
    requires
        0 <= i <= elems.len(),
    ensures
        elements_cost(elems.take(i)) <= elements_cost(elems),
    decreases elems.len() - i,
{
    if i == elems.len() {
        assert(elems.take(i) =~= elems);
    } else {
        lemma_elements_cost_step(elems, i);
        lemma_elements_cost_prefix(elems, i + 1);
    }
}

/// A sum is no more than its product with a count of one or more, and less
/// where the sum is not 0 and the count is more than one.
pub proof fn lemma_sum_at_most_product(sum: nat, count: nat)
    ensures
        count >= 1 ==> sum <= sum * count,
        count > 1 && sum > 0 ==> sum < sum * count,
{
    assert(count >= 1 ==> sum <= sum * count) by (nonlinear_arith);
    assert(count > 1 && sum > 0 ==> sum < sum * count) by (nonlinear_arith);
}

/// Taking one field out takes its cost and the overhead of 100 out of the
/// sum, wherever the field stood.
pub proof fn lemma_fields_cost_remove(fields: Seq<PredicatePattern<'_>>, i: int)
    requires
        0 <= i < fields.len(),
    ensures
        fields_cost(fields) == fields_cost(fields.remove(i)) + fields[i].spec_cost() + 100,
    decreases fields.len(),
{
    if i == fields.len() - 1 {
        assert(fields.remove(i) =~= fields.drop_last());
    } else {
        lemma_fields_cost_remove(fields.drop_last(), i);
        assert(fields.remove(i).drop_last() =~= fields.drop_last().remove(i));
        assert(fields.remove(i).last() == fields.last());
    }
}

/// Sequences that hold the same fields, each as often as the other, cost
/// the same.
pub proof fn lemma_fields_cost_permutation(
    a: Seq<PredicatePattern<'_>>,
    b: Seq<PredicatePattern<'_>>,
)
    requires
        a.to_multiset() == b.to_multiset(),
    ensures
        fields_cost(a) == fields_cost(b),
    decreases a.len(),
{
    broadcast use vstd::seq_lib::group_to_multiset_ensures;

    if a.len() == 0 {
        assert(b.to_multiset().len() == 0);
    } else {
        let x = a.last();
        assert(a.to_multiset().count(x) > 0);
        let i = b.index_of(x);
        assert(a.drop_last() =~= a.remove(a.len() - 1));
        lemma_fields_cost_permutation(a.drop_last(), b.remove(i));
        lemma_fields_cost_remove(b, i);
    }
}

/// Sequences whose elements cost the same, position by position, cost the
/// same.
pub proof fn lemma_elements_cost_pointwise(
    a: Seq<ArrayPredicatePattern<'_>>,
    b: Seq<ArrayPredicatePattern<'_>>,
)
    requires
        a.len() == b.len(),
        forall|i: int| 0 <= i < a.len() ==> #[trigger] a[i].spec_cost() == b[i].spec_cost(),
    ensures
        elements_cost(a) == elements_cost(b),
    decreases a.len(),
{
    if a.len() > 0 {
        assert forall|i: int| 0 <= i < a.drop_last().len() implies #[trigger] a.drop_last()[
            i
        ].spec_cost() == b.drop_last()[i].spec_cost() by {
            assert(a[i].spec_cost() == b[i].spec_cost());
        }
        lemma_elements_cost_pointwise(a.drop_last(), b.drop_last());
        assert(a[a.len() - 1].spec_cost() == b[a.len() - 1].spec_cost());
    }
}

} // verus!
