use pattern_cost::analyzer::Costly;
use pattern_cost::ast::{
    ArrayPattern, ArrayPredicatePattern, AssignPattern, BinOpKind, Extractor, ImutExprInt,
    Literal, Pattern, PredicateClause, PredicatePattern, RecordPattern, TestExpr, TuplePattern,
};

fn test_expr(base_cost: u64) -> TestExpr {
    TestExpr {
        id: String::from("re"),
        test: String::from("^snot.*badger$"),
        extractor: Extractor { base_cost },
    }
}

fn tilde(base_cost: u64) -> ArrayPredicatePattern<'static> {
    ArrayPredicatePattern::Tilde(test_expr(base_cost))
}

fn tilde_eq(base_cost: u64) -> PredicatePattern<'static> {
    PredicatePattern::TildeEq { assign: "m", key: "k", test: Box::new(test_expr(base_cost)) }
}

#[test]
fn checked_cost_of_plain_patterns() {
    assert_eq!(Pattern::DoNotCare.checked_cost(), Some(0));
    assert_eq!(Pattern::Default.checked_cost(), Some(0));
    assert_eq!(Pattern::Expr(ImutExprInt::Literal(Literal::Null)).checked_cost(), Some(10));
    assert_eq!(ArrayPredicatePattern::Ignore.checked_cost(), Some(1));
    assert_eq!(
        ArrayPredicatePattern::Expr(ImutExprInt::Local { id: "x", idx: 3 }).checked_cost(),
        Some(10)
    );
    assert_eq!(PredicatePattern::FieldPresent { key: "a" }.checked_cost(), Some(10));
    assert_eq!(PredicatePattern::FieldAbsent { key: "a" }.checked_cost(), Some(10));
    let literal = PredicatePattern::Bin {
        key: "a",
        rhs: ImutExprInt::Literal(Literal::Int(1)),
        kind: BinOpKind::Eq,
    };
    assert_eq!(literal.checked_cost(), Some(20));
    let general = PredicatePattern::Bin {
        key: "a",
        rhs: ImutExprInt::Local { id: "x", idx: 3 },
        kind: BinOpKind::Lte,
    };
    assert_eq!(general.checked_cost(), Some(100));
}

#[test]
fn checked_cost_agrees_with_cost() {
    let make = || {
        Pattern::Record(RecordPattern {
            fields: vec![
                tilde_eq(500),
                PredicatePattern::ArrayPatternEq {
                    key: "b",
                    pattern: ArrayPattern { exprs: vec![tilde(3), ArrayPredicatePattern::Ignore] },
                },
                PredicatePattern::RecordPatternEq {
                    key: "c",
                    pattern: RecordPattern { fields: vec![tilde_eq(1)] },
                },
            ],
        })
    };
    assert_eq!(make().cost(), 600 + (8 + 100) + (101 + 100));
    assert_eq!(make().checked_cost(), Some(make().cost()));
    let clause = PredicateClause {
        pattern: make(),
        guard: Some(ImutExprInt::Literal(Literal::Bool(true))),
    };
    assert_eq!(clause.checked_cost(), Some(919));
    let tuple = TuplePattern { exprs: vec![tilde(3), ArrayPredicatePattern::Ignore], open: true };
    assert_eq!(tuple.checked_cost(), Some(4));
    let assign = AssignPattern { id: "x", idx: 0, pattern: Box::new(Pattern::Tuple(tuple)) };
    assert_eq!(assign.checked_cost(), Some(4));
}

#[test]
fn test_expr_cost_always_fits() {
    assert_eq!(test_expr(u64::MAX).checked_cost(), Some(u64::MAX));
    assert_eq!(Pattern::Extract(Box::new(test_expr(u64::MAX))).checked_cost(), Some(u64::MAX));
    assert_eq!(Pattern::Extract(Box::new(test_expr(u64::MAX))).cost(), u64::MAX);
}

#[test]
fn record_cost_up_to_the_limit() {
    let at_limit = RecordPattern { fields: vec![tilde_eq(u64::MAX - 100)] };
    assert_eq!(at_limit.checked_cost(), Some(u64::MAX));
    assert_eq!(at_limit.cost(), u64::MAX);
}

#[test]
fn record_overhead_past_the_limit() {
    let past_limit = RecordPattern { fields: vec![tilde_eq(u64::MAX - 99)] };
    assert_eq!(past_limit.checked_cost(), None);
    assert_eq!(Pattern::Record(past_limit).checked_cost(), None);
}

#[test]
fn record_sum_past_the_limit() {
    let half = u64::MAX / 2;
    let fits = RecordPattern { fields: vec![tilde_eq(half - 100), tilde_eq(half - 99)] };
    assert_eq!(fits.checked_cost(), Some(u64::MAX));
    let too_much = RecordPattern { fields: vec![tilde_eq(half - 100), tilde_eq(half - 98)] };
    assert_eq!(too_much.checked_cost(), None);
}

#[test]
fn tuple_sum_past_the_limit() {
    let fits = TuplePattern { exprs: vec![tilde(u64::MAX - 1), tilde(1)], open: false };
    assert_eq!(fits.checked_cost(), Some(u64::MAX));
    let too_much = TuplePattern { exprs: vec![tilde(u64::MAX - 1), tilde(2)], open: false };
    assert_eq!(too_much.checked_cost(), None);
    assert_eq!(Pattern::Tuple(too_much).checked_cost(), None);
}

#[test]
fn array_sum_past_the_limit() {
    let too_much = ArrayPattern { exprs: vec![tilde(u64::MAX), tilde(1)] };
    assert_eq!(too_much.checked_cost(), None);
}

#[test]
fn array_product_past_the_limit() {
    // u64::MAX is 3 * 5 * 17 * 257 * 641 * 65537 * 6700417.
    let third = u64::MAX / 3;
    let fits = ArrayPattern { exprs: vec![tilde(third), tilde(0), tilde(0)] };
    assert_eq!(fits.checked_cost(), Some(u64::MAX));
    assert_eq!(fits.cost(), u64::MAX);
    let too_much = ArrayPattern { exprs: vec![tilde(third), tilde(1), tilde(0)] };
    assert_eq!(too_much.checked_cost(), None);
    // The same elements fit as a tuple.
    let tuple = TuplePattern { exprs: vec![tilde(third), tilde(1), tilde(0)], open: false };
    assert_eq!(tuple.checked_cost(), Some(third + 1));
}

#[test]
fn guard_past_the_limit() {
    let pattern = || Pattern::Extract(Box::new(test_expr(u64::MAX - 9)));
    let without = PredicateClause { pattern: pattern(), guard: None };
    assert_eq!(without.checked_cost(), Some(u64::MAX - 9));
    let with = PredicateClause {
        pattern: pattern(),
        guard: Some(ImutExprInt::Literal(Literal::Null)),
    };
    assert_eq!(with.checked_cost(), None);
    let at_limit = PredicateClause {
        pattern: Pattern::Extract(Box::new(test_expr(u64::MAX - 10))),
        guard: Some(ImutExprInt::Literal(Literal::Null)),
    };
    assert_eq!(at_limit.checked_cost(), Some(u64::MAX));
    assert_eq!(at_limit.cost(), u64::MAX);
}

#[test]
fn overflow_deep_inside_reaches_the_top() {
    let inner = RecordPattern { fields: vec![tilde_eq(u64::MAX)] };
    let array = ArrayPattern { exprs: vec![ArrayPredicatePattern::Record(inner)] };
    let field = PredicatePattern::ArrayPatternEq { key: "a", pattern: array };
    let record = RecordPattern { fields: vec![PredicatePattern::FieldPresent { key: "b" }, field] };
    let assign =
        AssignPattern { id: "x", idx: 0, pattern: Box::new(Pattern::Record(record)) };
    let clause = PredicateClause { pattern: Pattern::Assign(assign), guard: None };
    assert_eq!(clause.checked_cost(), None);
}
