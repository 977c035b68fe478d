//! The pattern nodes that the cost model reads.
//!
//! The nodes form a tree. Names and keys are borrowed from the script's
//! text; nothing here owns or copies it. The cost model looks at the shape
//! of a node only: which variant it is, what it contains, and whether a
//! compared expression is a literal.

use vstd::prelude::*;

verus! {

/// A constant that is known when the script is compiled.
#[derive(Debug, PartialEq, Eq)]
pub enum Literal<'script> {
    Null,
    Bool(bool),
    Int(i64),
    Str(&'script str),
}

/// The operator of a binary expression or of a comparison in a record
/// pattern.
#[derive(Clone, Copy, Debug, PartialEq, Eq)]
pub enum BinOpKind {
    Eq,
    NotEq,
    Gt,
    Gte,
    Lt,
    Lte,
    Add,
    Sub,
}

/// An expression without side effects.
#[derive(Debug, PartialEq, Eq)]
pub enum ImutExprInt<'script> {
    /// A compile-time constant.
    Literal(Literal<'script>),
    /// A local variable, looked up when the script runs.
    Local { id: &'script str, idx: usize },
    /// A binary operation on two expressions, evaluated when the script runs.
    Binary { kind: BinOpKind, lhs: Box<ImutExprInt<'script>>, rhs: Box<ImutExprInt<'script>> },
}

/// A pluggable matcher, as far as the cost model is concerned: the base cost
/// that the matcher's implementation has calibrated for its kind.
#[derive(Clone, Copy, Debug, PartialEq, Eq)]
pub struct Extractor {
    pub base_cost: u64,
}

impl Extractor {
    /// The calibrated base cost of this extractor, taken as it is.
    pub fn cost(&self) -> (c: u64)
        ensures
            c == self.base_cost,
    {
        self.base_cost
    }
}

/// An extractor applied to a value: `id|test|`.
#[derive(Debug, PartialEq, Eq)]
pub struct TestExpr {
    /// The extractor's name.
    pub id: String,
    /// The argument that the extractor was built from.
    pub test: String,
    /// The extractor itself.
    pub extractor: Extractor,
}

/// One test on a field inside a record pattern.
#[derive(Debug, PartialEq, Eq)]
#[allow(inconsistent_fields)]
pub enum PredicatePattern<'script> {
    /// `key ~= extractor`: the field's value passes an extractor.
    TildeEq { assign: &'script str, key: &'script str, test: Box<TestExpr> },
    /// `key <op> rhs`: the field's value compares to an expression.
    Bin { key: &'script str, rhs: ImutExprInt<'script>, kind: BinOpKind },
    /// `key ~= %{ .. }`: the field's value matches a record pattern.
    RecordPatternEq { key: &'script str, pattern: RecordPattern<'script> },
    /// `key ~= %[ .. ]`: the field's value matches an array pattern.
    ArrayPatternEq { key: &'script str, pattern: ArrayPattern<'script> },
    /// `present key`: the field is there.
    FieldPresent { key: &'script str },
    /// `absent key`: the field is not there.
    FieldAbsent { key: &'script str },
}

/// A pattern that matches a record: a sequence of tests on its fields.
#[derive(Debug, PartialEq, Eq)]
pub struct RecordPattern<'script> {
    pub fields: Vec<PredicatePattern<'script>>,
}

/// One test on an element inside an array or tuple pattern.
#[derive(Debug, PartialEq, Eq)]
pub enum ArrayPredicatePattern<'script> {
    /// The element equals an expression.
    Expr(ImutExprInt<'script>),
    /// The element passes an extractor.
    Tilde(TestExpr),
    /// The element matches a record pattern.
    Record(RecordPattern<'script>),
    /// The element is skipped.
    Ignore,
}

/// A pattern that matches an array: its elements may be found at any
/// position of the value.
#[derive(Debug, PartialEq, Eq)]
pub struct ArrayPattern<'script> {
    pub exprs: Vec<ArrayPredicatePattern<'script>>,
}

/// A pattern that matches a sequence position by position.
#[derive(Debug, PartialEq, Eq)]
pub struct TuplePattern<'script> {
    pub exprs: Vec<ArrayPredicatePattern<'script>>,
    /// Whether the value may have more elements than the pattern.
    pub open: bool,
}

/// A pattern that binds the matched value to a name.
#[derive(Debug, PartialEq, Eq)]
pub struct AssignPattern<'script> {
    pub id: &'script str,
    pub idx: usize,
    pub pattern: Box<Pattern<'script>>,
}

/// The matching rule of one arm of a `match`.
#[derive(Debug, PartialEq, Eq)]
pub enum Pattern<'script> {
    Record(RecordPattern<'script>),
    Array(ArrayPattern<'script>),
    Expr(ImutExprInt<'script>),
    Assign(AssignPattern<'script>),
    Tuple(TuplePattern<'script>),
    Extract(Box<TestExpr>),
    /// `_`: matches anything.
    DoNotCare,
    /// `default`: the arm taken when no other matches.
    Default,
}

/// One arm of a `match`: a pattern and, optionally, a guard expression.
#[derive(Debug, PartialEq, Eq)]
pub struct PredicateClause<'script> {
    pub pattern: Pattern<'script>,
    pub guard: Option<ImutExprInt<'script>>,
}

} // verus!
