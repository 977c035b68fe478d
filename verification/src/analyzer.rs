//! The cost of each pattern node.
//!
//! A cost is a natural number without an upper bound. `spec_cost` defines it;
//! `cost` computes it in a `u64` for a node whose cost fits.

use vstd::prelude::*;
use crate::ast::{
    ArrayPattern, ArrayPredicatePattern, AssignPattern, ImutExprInt, Pattern, PredicateClause,
    PredicatePattern, RecordPattern, TestExpr, TuplePattern,
};
use crate::sums::{
    lemma_elements_cost_prefix, lemma_elements_cost_step, lemma_fields_cost_prefix,
    lemma_fields_cost_step, lemma_sum_at_most_product,
};

verus! {

/// A node that has a cost.
///
/// The cost is a function of the node: `cost` reads the node and changes
/// nothing, and any two calls on one node return the same number.
pub trait Costly {
    /// The cost of this node.
    spec fn spec_cost(&self) -> nat;

    /// Computes the cost of this node, which must fit in a `u64`.
    fn cost(&self) -> (c: u64)
        requires
            self.spec_cost() <= u64::MAX,
        ensures
            c == self.spec_cost(),
    ;

    /// Computes the cost of any node: `None` exactly when the cost does not
    /// fit in a `u64`.
    fn checked_cost(&self) -> (r: Option<u64>)
        ensures
            r is Some <==> self.spec_cost() <= u64::MAX,
            r matches Some(c) ==> c == self.spec_cost(),
    ;
}

/// The cost of the fields of a record pattern: each field's own cost and a
/// fixed 100 for finding the field.
pub open spec fn fields_cost(fields: Seq<PredicatePattern<'_>>) -> nat
    decreases fields,
{
    if fields.len() == 0 {
        0
    } else {
        fields_cost(fields.drop_last()) + (fields.last().spec_cost() + 100)
    }
}

/// The sum of the costs of the elements of an array or tuple pattern.
pub open spec fn elements_cost(elems: Seq<ArrayPredicatePattern<'_>>) -> nat
    decreases elems,
{
    if elems.len() == 0 {
        0
    } else {
        elements_cost(elems.drop_last()) + elems.last().spec_cost()
    }
}

impl Costly for TestExpr {
    /// An extractor test costs what its extractor costs.
    open spec fn spec_cost(&self) -> nat {
        self.extractor.base_cost as nat
    }

    fn cost(&self) -> (c: u64) {
        self.extractor.cost()
    }

    fn checked_cost(&self) -> (r: Option<u64>) {
        Some(self.extractor.cost())
    }
}

impl<'script> Costly for PredicateClause<'script> {
    /// A clause costs what its pattern costs, and 10 more with a guard.
    open spec fn spec_cost(&self) -> nat {
        self.pattern.spec_cost() + if self.guard is Some { 10nat } else { 0nat }
    }

    fn cost(&self) -> (c: u64) {
        let g: u64 = if self.guard.is_some() { 10 } else { 0 };
        g + self.pattern.cost()
    }

    fn checked_cost(&self) -> (r: Option<u64>) {
        let g: u64 = if self.guard.is_some() { 10 } else { 0 };
        g.checked_add(self.pattern.checked_cost()?)
    }
}

impl<'script> Costly for Pattern<'script> {
    open spec fn spec_cost(&self) -> nat
        decreases self,
    {
        match self {
            Pattern::DoNotCare | Pattern::Default => 0,
            Pattern::Expr(_) => 10,
            Pattern::Record(r) => r.spec_cost(),
            Pattern::Array(a) => a.spec_cost(),
            Pattern::Assign(a) => a.spec_cost(),
            Pattern::Tuple(t) => t.spec_cost(),
            Pattern::Extract(e) => e.spec_cost(),
        }
    }

    fn cost(&self) -> (c: u64)
        decreases self,
    {
        match self {
            Pattern::DoNotCare | Pattern::Default => 0,
            Pattern::Expr(_) => 10,
            Pattern::Record(r) => r.cost(),
            Pattern::Array(a) => a.cost(),
            Pattern::Assign(a) => a.cost(),
            Pattern::Tuple(t) => t.cost(),
            Pattern::Extract(e) => e.cost(),
        }
    }

    fn checked_cost(&self) -> (r: Option<u64>)
        decreases self,
    {
        match self {
            Pattern::DoNotCare | Pattern::Default => Some(0),
            Pattern::Expr(_) => Some(10),
            Pattern::Record(r) => r.checked_cost(),
            Pattern::Array(a) => a.checked_cost(),
            Pattern::Assign(a) => a.checked_cost(),
            Pattern::Tuple(t) => t.checked_cost(),
            Pattern::Extract(e) => e.checked_cost(),
        }
    }
}

impl<'script> Costly for PredicatePattern<'script> {
    open spec fn spec_cost(&self) -> nat
        decreases self,
    {
        match self {
            PredicatePattern::FieldPresent { .. } | PredicatePattern::FieldAbsent { .. } => 10,
            PredicatePattern::Bin { rhs: ImutExprInt::Literal(_), .. } => 20,
            PredicatePattern::Bin { .. } => 100,
            PredicatePattern::TildeEq { test, .. } => test.spec_cost(),
            PredicatePattern::RecordPatternEq { pattern, .. } => pattern.spec_cost(),
            PredicatePattern::ArrayPatternEq { pattern, .. } => pattern.spec_cost(),
        }
    }

    fn cost(&self) -> (c: u64)
        decreases self,
    {
        match self {
            PredicatePattern::FieldPresent { .. } | PredicatePattern::FieldAbsent { .. } => 10,
            PredicatePattern::Bin { rhs: ImutExprInt::Literal(_), .. } => 20,
            PredicatePattern::Bin { .. } => 100,
            PredicatePattern::TildeEq { test, .. } => test.cost(),
            PredicatePattern::RecordPatternEq { pattern, .. } => pattern.cost(),
            PredicatePattern::ArrayPatternEq { pattern, .. } => pattern.cost(),
        }
    }

    fn checked_cost(&self) -> (r: Option<u64>)
        decreases self,
    {
        match self {
            PredicatePattern::FieldPresent { .. } | PredicatePattern::FieldAbsent { .. } => Some(10),
            PredicatePattern::Bin { rhs: ImutExprInt::Literal(_), .. } => Some(20),
            PredicatePattern::Bin { .. } => Some(100),
            PredicatePattern::TildeEq { test, .. } => test.checked_cost(),
            PredicatePattern::RecordPatternEq { pattern, .. } => pattern.checked_cost(),
            PredicatePattern::ArrayPatternEq { pattern, .. } => pattern.checked_cost(),
        }
    }
}

impl<'script> Costly for RecordPattern<'script> {
    open spec fn spec_cost(&self) -> nat
        decreases self,
    {
        fields_cost(self.fields@)
    }

    fn cost(&self) -> (c: u64)
        decreases self,
    {
        let mut sum: u64 = 0;
        let mut i: usize = 0;
        while i < self.fields.len()
            invariant
                i <= self.fields.len(),
                sum == fields_cost(self.fields@.take(i as int)),
                fields_cost(self.fields@) <= u64::MAX,
            decreases self.fields.len() - i,
        {
            proof {
                lemma_fields_cost_step(self.fields@, i as int);
                lemma_fields_cost_prefix(self.fields@, i + 1);
            }
            sum = sum + (self.fields[i].cost() + 100);
            i = i + 1;
        }
        assert(self.fields@.take(i as int) =~= self.fields@);
        sum
    }

    fn checked_cost(&self) -> (r: Option<u64>)
        decreases self,
    {
        let mut sum: u64 = 0;
        let mut i: usize = 0;
        while i < self.fields.len()
            invariant
                i <= self.fields.len(),
                sum == fields_cost(self.fields@.take(i as int)),
            decreases self.fields.len() - i,
        {
            proof {
                lemma_fields_cost_step(self.fields@, i as int);
                lemma_fields_cost_prefix(self.fields@, i + 1);
            }
            let field: u64 = self.fields[i].checked_cost()?.checked_add(100)?;
            sum = sum.checked_add(field)?;
            i = i + 1;
        }
        assert(self.fields@.take(i as int) =~= self.fields@);
        Some(sum)
    }
}

impl<'script> Costly for ArrayPredicatePattern<'script> {
    open spec fn spec_cost(&self) -> nat
        decreases self,
    {
        match self {
            ArrayPredicatePattern::Ignore => 1,
            // A literal costs what any other expression costs here.
            ArrayPredicatePattern::Expr(_) => 10,
            ArrayPredicatePattern::Tilde(t) => t.spec_cost(),
            ArrayPredicatePattern::Record(r) => r.spec_cost(),
        }
    }

    fn cost(&self) -> (c: u64)
        decreases self,
    {
        match self {
            ArrayPredicatePattern::Ignore => 1,
            ArrayPredicatePattern::Expr(_) => 10,
            ArrayPredicatePattern::Tilde(t) => t.cost(),
            ArrayPredicatePattern::Record(r) => r.cost(),
        }
    }

    fn checked_cost(&self) -> (r: Option<u64>)
        decreases self,
    {
        match self {
            ArrayPredicatePattern::Ignore => Some(1),
            ArrayPredicatePattern::Expr(_) => Some(10),
            ArrayPredicatePattern::Tilde(t) => t.checked_cost(),
            ArrayPredicatePattern::Record(r) => r.checked_cost(),
        }
    }
}

impl<'script> Costly for ArrayPattern<'script> {
    /// The sum of the elements' costs, times the number of elements: an
    /// element of an array pattern may have to be looked for at every
    /// position.
    open spec fn spec_cost(&self) -> nat
        decreases self,
    {
        elements_cost(self.exprs@) * self.exprs@.len()
    }

    fn cost(&self) -> (c: u64)
        decreases self,
    {
        let n: usize = self.exprs.len();
        proof {
            lemma_sum_at_most_product(elements_cost(self.exprs@), n as nat);
        }
        let s: u64 = sum_of_costs(&self.exprs);
        s * (n as u64)
    }

    fn checked_cost(&self) -> (r: Option<u64>)
        decreases self,
    {
        let n: usize = self.exprs.len();
        proof {
            lemma_sum_at_most_product(elements_cost(self.exprs@), n as nat);
        }
        let s: u64 = checked_sum_of_costs(&self.exprs)?;
        s.checked_mul(n as u64)
    }
}

impl<'script> Costly for AssignPattern<'script> {
    /// Binding a name is free.
    open spec fn spec_cost(&self) -> nat
        decreases self,
    {
        self.pattern.spec_cost()
    }

    fn cost(&self) -> (c: u64)
        decreases self,
    {
        self.pattern.cost()
    }

    fn checked_cost(&self) -> (r: Option<u64>)
        decreases self,
    {
        self.pattern.checked_cost()
    }
}

impl<'script> Costly for TuplePattern<'script> {
    /// The sum of the elements' costs: each element of a tuple pattern has
    /// its one position.
    open spec fn spec_cost(&self) -> nat
        decreases self,
    {
        elements_cost(self.exprs@)
    }

    fn cost(&self) -> (c: u64)
        decreases self,
    {
        sum_of_costs(&self.exprs)
    }

    fn checked_cost(&self) -> (r: Option<u64>)
        decreases self,
    {
        checked_sum_of_costs(&self.exprs)
    }
}

/// Adds up the costs of the elements of an array or tuple pattern.
fn sum_of_costs(exprs: &Vec<ArrayPredicatePattern<'_>>) -> (sum: u64)
    requires
        elements_cost(exprs@) <= u64::MAX,
    ensures
        sum == elements_cost(exprs@),
    decreases exprs,
{
    let mut sum: u64 = 0;
    let mut i: usize = 0;
    while i < exprs.len()
        invariant
            i <= exprs.len(),
            sum == elements_cost(exprs@.take(i as int)),
            elements_cost(exprs@) <= u64::MAX,
        decreases exprs.len() - i,
    {
        proof {
            lemma_elements_cost_step(exprs@, i as int);
            lemma_elements_cost_prefix(exprs@, i + 1);
        }
        sum = sum + exprs[i].cost();
        i = i + 1;
    }
    assert(exprs@.take(i as int) =~= exprs@);
    sum
}

/// Adds up the costs of the elements of an array or tuple pattern: `None`
/// exactly when the sum does not fit in a `u64`.
fn checked_sum_of_costs(exprs: &Vec<ArrayPredicatePattern<'_>>) -> (r: Option<u64>)
    ensures
        r is Some <==> elements_cost(exprs@) <= u64::MAX,
        r matches Some(sum) ==> sum == elements_cost(exprs@),
    decreases exprs,
{
    let mut sum: u64 = 0;
    let mut i: usize = 0;
    while i < exprs.len()
        invariant
            i <= exprs.len(),
            sum == elements_cost(exprs@.take(i as int)),
        decreases exprs.len() - i,
    {
        proof {
            lemma_elements_cost_step(exprs@, i as int);
            lemma_elements_cost_prefix(exprs@, i + 1);
        }
        sum = sum.checked_add(exprs[i].checked_cost()?)?;
        i = i + 1;
    }
    assert(exprs@.take(i as int) =~= exprs@);
    Some(sum)
}

} // verus!
