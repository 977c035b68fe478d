//! What holds of the cost of every node.

use vstd::prelude::*;
use crate::analyzer::{elements_cost, Costly};
use crate::ast::{
    ArrayPattern, ArrayPredicatePattern, AssignPattern, ImutExprInt, Pattern, PredicateClause,
    PredicatePattern, RecordPattern, TuplePattern,
};
use crate::sums::{
    lemma_elements_cost_pointwise, lemma_fields_cost_permutation, lemma_sum_at_most_product,
};

verus! {

/// Whether two sequences of elements have the same length and, position by
/// position, the same costs.
pub open spec fn same_element_costs(
    a: Seq<ArrayPredicatePattern<'_>>,
    b: Seq<ArrayPredicatePattern<'_>>,
) -> bool {
    &&& a.len() == b.len()
    &&& forall|i: int| 0 <= i < a.len() ==> #[trigger] a[i].spec_cost() == b[i].spec_cost()
}

/// Any two results of `cost` on one node are equal.
pub proof fn cost_is_a_function_of_the_node<T: Costly>(node: &T, c1: u64, c2: u64)
    requires
        call_ensures(T::cost, (node,), c1),
        call_ensures(T::cost, (node,), c2),
    ensures
        c1 == c2,
{
}

/// Any two results of `checked_cost` on one node are equal, and a result of
/// `cost` on that node is the number they hold.
pub proof fn checked_cost_is_a_function_of_the_node<T: Costly>(
    node: &T,
    r1: Option<u64>,
    r2: Option<u64>,
    c: u64,
)
    requires
        call_ensures(T::checked_cost, (node,), r1),
        call_ensures(T::checked_cost, (node,), r2),
    ensures
        r1 == r2,
        call_ensures(T::cost, (node,), c) ==> r1 == Some(c),
{
}

/// A clause without a guard costs what its pattern costs; a guard adds 10.
pub proof fn clause_cost_by_guard(clause: PredicateClause<'_>)
    ensures
        clause.guard is None ==> clause.spec_cost() == clause.pattern.spec_cost(),
        clause.guard is Some ==> clause.spec_cost() == clause.pattern.spec_cost() + 10,
{
}

/// The cost of a record pattern does not depend on the order of its fields:
/// two records that hold the same fields, each as often as the other, cost
/// the same.
pub proof fn record_cost_ignores_field_order(a: RecordPattern<'_>, b: RecordPattern<'_>)
    requires
        a.fields@.to_multiset() == b.fields@.to_multiset(),
    ensures
        a.spec_cost() == b.spec_cost(),
{
    lemma_fields_cost_permutation(a.fields@, b.fields@);
}

/// A tuple pattern with at least one element costs no more than an array
/// pattern whose elements cost the same: the array costs as many times the
/// tuple as it has elements.
pub proof fn tuple_costs_at_most_array(tuple: TuplePattern<'_>, array: ArrayPattern<'_>)
    requires
        tuple.exprs@.len() >= 1,
        same_element_costs(tuple.exprs@, array.exprs@),
    ensures
        tuple.spec_cost() <= array.spec_cost(),
        array.spec_cost() == tuple.spec_cost() * array.exprs@.len(),
{
    lemma_elements_cost_pointwise(tuple.exprs@, array.exprs@);
    lemma_sum_at_most_product(elements_cost(array.exprs@), array.exprs@.len());
}

/// A tuple pattern with more than one element costs less than an array
/// pattern whose elements cost the same, unless every element is free.
pub proof fn tuple_costs_less_than_array(tuple: TuplePattern<'_>, array: ArrayPattern<'_>)
    requires
        tuple.exprs@.len() > 1,
        same_element_costs(tuple.exprs@, array.exprs@),
        tuple.spec_cost() > 0,
    ensures
        tuple.spec_cost() < array.spec_cost(),
{
    lemma_elements_cost_pointwise(tuple.exprs@, array.exprs@);
    lemma_sum_at_most_product(elements_cost(array.exprs@), array.exprs@.len());
}

/// Binding a name is free: an assignment costs what the pattern inside it
/// costs, whatever that pattern is.
pub proof fn assign_cost_is_inner_cost(assign: AssignPattern<'_>)
    ensures
        assign.spec_cost() == assign.pattern.spec_cost(),
        Pattern::Assign(assign).spec_cost() == assign.pattern.spec_cost(),
{
}

/// A comparison with a literal costs 20, one with any other expression 100,
/// so the first is the cheaper one.
pub proof fn bin_cost_by_right_hand_side(
    with_literal: PredicatePattern<'_>,
    with_other: PredicatePattern<'_>,
)
    requires
        with_literal matches PredicatePattern::Bin { rhs, .. } && rhs is Literal,
        with_other matches PredicatePattern::Bin { rhs, .. } && !(rhs is Literal),
    ensures
        with_literal.spec_cost() == 20,
        with_other.spec_cost() == 100,
        with_literal.spec_cost() < with_other.spec_cost(),
{
}

/// A skipped element costs 1, an element compared to an expression 10,
/// literal or not; an expression pattern costs 10 as well.
pub proof fn ignore_is_cheaper_than_expr(e: ImutExprInt<'_>)
    ensures
        ArrayPredicatePattern::Ignore.spec_cost() == 1,
        ArrayPredicatePattern::Expr(e).spec_cost() == 10,
        Pattern::Expr(e).spec_cost() == 10,
        ArrayPredicatePattern::Ignore.spec_cost() < ArrayPredicatePattern::Expr(e).spec_cost(),
{
}

} // verus!
