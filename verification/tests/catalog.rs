use egg_bench::lambda::rules;
use egg_bench::rewrite::{Applier, CaptureAvoid, Condition, Rewrite};

#[test]
fn the_catalog_of_the_lambda_calculus() {
    let catalog = rules();
    let names: Vec<&str> = catalog.iter().map(|r| r.name).collect();
    assert_eq!(
        names,
        vec![
            "if-true", "if-false", "if-elim", "add-comm", "add-assoc", "eq-comm", "fix", "beta", "let-app",
            "let-add", "let-eq", "let-const", "let-if", "let-var-same", "let-var-diff", "let-lam-same",
            "let-lam-diff",
        ]
    );
    assert_eq!(catalog[7].searcher, "(app (lam ?v ?body) ?e)");
    assert_eq!(catalog[7].applier, Applier::Pattern("(let ?v ?e ?body)"));
    assert!(catalog[7].conditions.is_empty());
}

#[test]
fn the_guards_of_the_lambda_rules() {
    let catalog = rules();
    assert_eq!(
        catalog[2].conditions,
        vec![Condition::Equal { left: "(let ?x ?e ?then)", right: "(let ?x ?e ?else)" }]
    );
    assert_eq!(catalog[11].conditions, vec![Condition::IsConst { var: "?c" }]);
    assert_eq!(catalog[14].conditions, vec![Condition::IsNotSameVar { v1: "?v1", v2: "?v2" }]);
    assert_eq!(catalog[16].conditions, vec![Condition::IsNotSameVar { v1: "?v1", v2: "?v2" }]);
    let guarded = catalog.iter().filter(|r| !r.conditions.is_empty()).count();
    assert_eq!(guarded, 4);
}

#[test]
fn one_rule_avoids_capture() {
    let catalog = rules();
    let special: Vec<&Rewrite> =
        catalog.iter().filter(|r| matches!(r.applier, Applier::CaptureAvoid(_))).collect();
    assert_eq!(special.len(), 1);
    assert_eq!(special[0].name, "let-lam-diff");
    assert_eq!(special[0].searcher, "(let ?v1 ?e (lam ?v2 ?body))");
    assert_eq!(
        special[0].applier,
        Applier::CaptureAvoid(CaptureAvoid {
            v2: "?v2",
            e: "?e",
            if_not_free: "(lam ?v2 (let ?v1 ?e ?body))",
            if_free: "(lam (fresh (let ?v1 ?e (lam ?v2 ?body))) (let ?v1 ?e (let ?v2 (var (fresh (let ?v1 ?e (lam ?v2 ?body)))) ?body)))",
        })
    );
}

#[test]
fn conditions_are_asked_in_the_order_given() {
    let rule = Rewrite::new("r", "(f ?a ?b)", Applier::Pattern("?a"))
        .when(Condition::IsConst { var: "?a" })
        .when(Condition::IsNotSameVar { v1: "?a", v2: "?b" });
    assert_eq!(rule.name, "r");
    assert_eq!(rule.searcher, "(f ?a ?b)");
    assert_eq!(
        rule.conditions,
        vec![Condition::IsConst { var: "?a" }, Condition::IsNotSameVar { v1: "?a", v2: "?b" }]
    );
}
