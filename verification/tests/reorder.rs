use pattern_cost::analyzer::Costly;
use pattern_cost::ast::{
    ImutExprInt, Literal, Pattern, PredicateClause, PredicatePattern, RecordPattern,
};

fn three_clauses() -> Vec<(&'static str, PredicateClause<'static>)> {
    let a = PredicateClause { pattern: Pattern::DoNotCare, guard: None };
    let b = PredicateClause {
        pattern: Pattern::Record(RecordPattern {
            fields: vec![
                PredicatePattern::FieldPresent { key: "snot" },
                PredicatePattern::FieldPresent { key: "badger" },
            ],
        }),
        guard: None,
    };
    let c = PredicateClause {
        pattern: Pattern::Expr(ImutExprInt::Literal(Literal::Int(7))),
        guard: Some(ImutExprInt::Local { id: "event", idx: 0 }),
    };
    vec![("a", a), ("b", b), ("c", c)]
}

#[test]
fn three_clauses_cost_0_220_20() {
    let costs: Vec<u64> = three_clauses().iter().map(|(_, clause)| clause.cost()).collect();
    assert_eq!(costs, vec![0, 220, 20]);
}

#[test]
fn three_clauses_sort_cheapest_first() {
    let mut clauses = three_clauses();
    clauses.sort_by_key(|(_, clause)| clause.cost());
    let order: Vec<(&str, u64)> =
        clauses.iter().map(|(name, clause)| (*name, clause.cost())).collect();
    assert_eq!(order, vec![("a", 0), ("c", 20), ("b", 220)]);
}

#[test]
fn three_clauses_sort_the_same_by_checked_cost() {
    let mut clauses = three_clauses();
    clauses.sort_by_key(|(_, clause)| clause.checked_cost());
    let order: Vec<&str> = clauses.iter().map(|(name, _)| *name).collect();
    assert_eq!(order, vec!["a", "c", "b"]);
}
