use egg_bench::analysis::{eval, Action, Data, DidMerge, EGraph, LambdaAnalysis, Literal, Proof};
use egg_bench::lambda::Lambda;
use egg_bench::rewrite::{is_const, is_not_same_var, CaptureAvoid};
use std::collections::HashSet;

fn set(ids: &[u32]) -> HashSet<u32> {
    ids.iter().copied().collect()
}

fn class(free: &[u32], constant: Option<(Literal, Proof)>) -> Data {
    Data { free: set(free), constant }
}

fn num(n: i32) -> Option<(Literal, Proof)> {
    Some((Literal::Num(n), Proof::Literal(Literal::Num(n))))
}

fn boolean(b: bool) -> Option<(Literal, Proof)> {
    Some((Literal::Bool(b), Proof::Literal(Literal::Bool(b))))
}

/// Classes 0 to 4: the numbers 1 and 2, `true`, and two classes without a constant.
fn graph() -> EGraph {
    let mut g = EGraph::new(false);
    g.insert(0, class(&[], num(1)));
    g.insert(1, class(&[], num(2)));
    g.insert(2, class(&[], boolean(true)));
    g.insert(3, class(&[10, 11], None));
    g.insert(4, class(&[11, 12], None));
    g
}

#[test]
fn eval_keeps_a_literal() {
    let g = graph();
    assert_eq!(eval(&g, &Lambda::Num(-7)), num(-7));
    assert_eq!(eval(&g, &Lambda::Bool(false)), boolean(false));
}

#[test]
fn eval_folds_a_sum_of_known_numbers() {
    let g = graph();
    assert_eq!(
        eval(&g, &Lambda::Add(0, 1)),
        Some((Literal::Num(3), Proof::Add(Literal::Num(1), Literal::Num(2))))
    );
}

#[test]
fn eval_does_not_add_a_boolean_or_an_unknown() {
    let g = graph();
    assert_eq!(eval(&g, &Lambda::Add(0, 2)), None);
    assert_eq!(eval(&g, &Lambda::Add(2, 0)), None);
    assert_eq!(eval(&g, &Lambda::Add(0, 3)), None);
    assert_eq!(eval(&g, &Lambda::Add(3, 0)), None);
}

#[test]
fn eval_compares_known_constants() {
    let g = graph();
    assert_eq!(
        eval(&g, &Lambda::Eq(0, 0)),
        Some((Literal::Bool(true), Proof::Eq(Literal::Num(1), Literal::Num(1))))
    );
    assert_eq!(
        eval(&g, &Lambda::Eq(0, 1)),
        Some((Literal::Bool(false), Proof::Eq(Literal::Num(1), Literal::Num(2))))
    );
    assert_eq!(
        eval(&g, &Lambda::Eq(0, 2)),
        Some((Literal::Bool(false), Proof::Eq(Literal::Num(1), Literal::Bool(true))))
    );
    assert_eq!(eval(&g, &Lambda::Eq(0, 3)), None);
}

#[test]
fn eval_folds_no_other_operator() {
    let g = graph();
    assert_eq!(eval(&g, &Lambda::App(0, 1)), None);
    assert_eq!(eval(&g, &Lambda::If(2, 0, 1)), None);
    assert_eq!(eval(&g, &Lambda::Var(0)), None);
    assert_eq!(eval(&g, &Lambda::Symbol("x".to_string())), None);
}

#[test]
fn make_collects_free_variables() {
    let g = graph();
    assert_eq!(LambdaAnalysis::make(&g, &Lambda::Var(3)).free, set(&[3]));
    assert_eq!(LambdaAnalysis::make(&g, &Lambda::Add(3, 4)).free, set(&[10, 11, 12]));
    assert_eq!(LambdaAnalysis::make(&g, &Lambda::Eq(3, 4)).free, set(&[10, 11, 12]));
    assert_eq!(LambdaAnalysis::make(&g, &Lambda::App(3, 4)).free, set(&[10, 11, 12]));
    assert_eq!(LambdaAnalysis::make(&g, &Lambda::If(0, 3, 4)).free, set(&[10, 11, 12]));
    assert_eq!(LambdaAnalysis::make(&g, &Lambda::Fresh(3)).free, set(&[10, 11]));
    assert_eq!(LambdaAnalysis::make(&g, &Lambda::Num(5)).free, set(&[]));
    assert_eq!(LambdaAnalysis::make(&g, &Lambda::Symbol("x".to_string())).free, set(&[]));
}

#[test]
fn make_removes_what_a_binder_binds() {
    let g = graph();
    assert_eq!(LambdaAnalysis::make(&g, &Lambda::Lambda(10, 3)).free, set(&[11]));
    assert_eq!(LambdaAnalysis::make(&g, &Lambda::Fix(11, 3)).free, set(&[10]));
    assert_eq!(LambdaAnalysis::make(&g, &Lambda::Lambda(12, 3)).free, set(&[10, 11]));
}

#[test]
fn make_keeps_what_is_free_in_the_value_of_a_let() {
    let g = graph();
    // (let 11 <class 3> <class 4>): 11 is bound in the body, and free in the value.
    assert_eq!(LambdaAnalysis::make(&g, &Lambda::Let(11, 3, 4)).free, set(&[10, 11, 12]));
    // (let 12 <class 0> <class 4>): the value has no free variable.
    assert_eq!(LambdaAnalysis::make(&g, &Lambda::Let(12, 0, 4)).free, set(&[11]));
}

#[test]
fn make_folds_the_constant() {
    let g = graph();
    let data = LambdaAnalysis::make(&g, &Lambda::Add(1, 1));
    assert_eq!(data.constant, Some((Literal::Num(4), Proof::Add(Literal::Num(2), Literal::Num(2)))));
    assert_eq!(data.free, set(&[]));
}

#[test]
fn merge_intersects_free_variables() {
    let mut to = class(&[1, 2, 3], None);
    let did = LambdaAnalysis.merge(&mut to, class(&[2, 3, 4], None));
    assert_eq!(to.free, set(&[2, 3]));
    assert_eq!(to.constant, None);
    assert_eq!(did, DidMerge(true, true));
}

#[test]
fn merge_reports_only_the_side_that_differs() {
    let mut to = class(&[1, 2], None);
    assert_eq!(LambdaAnalysis.merge(&mut to, class(&[1, 2, 3], None)), DidMerge(false, true));
    assert_eq!(to.free, set(&[1, 2]));
    let mut to = class(&[1, 2, 3], None);
    assert_eq!(LambdaAnalysis.merge(&mut to, class(&[1, 2], None)), DidMerge(true, false));
    assert_eq!(to.free, set(&[1, 2]));
    let mut to = class(&[1, 2], None);
    assert_eq!(LambdaAnalysis.merge(&mut to, class(&[1, 2], None)), DidMerge(false, false));
}

#[test]
fn merge_takes_the_constant_that_only_from_knows() {
    let mut to = class(&[1], None);
    let did = LambdaAnalysis.merge(&mut to, class(&[1], num(7)));
    assert_eq!(to.constant, num(7));
    assert_eq!(did, DidMerge(true, false));
}

#[test]
fn merge_keeps_the_constant_that_only_to_knows() {
    let mut to = class(&[1], num(7));
    let did = LambdaAnalysis.merge(&mut to, class(&[1], None));
    assert_eq!(to.constant, num(7));
    assert_eq!(did, DidMerge(false, true));
}

#[test]
fn merge_keeps_its_own_proof_of_an_equal_constant() {
    let sum = Some((Literal::Num(7), Proof::Add(Literal::Num(3), Literal::Num(4))));
    let mut to = class(&[], sum);
    let did = LambdaAnalysis.merge(&mut to, class(&[], num(7)));
    assert_eq!(to.constant, sum);
    assert_eq!(did, DidMerge(false, false));
}

#[test]
fn merging_again_changes_nothing() {
    let a = [1, 2, 3, 5];
    let b = [2, 3, 4];
    let mut once = class(&a, None);
    LambdaAnalysis.merge(&mut once, class(&b, None));
    let mut twice = class(&a, None);
    LambdaAnalysis.merge(&mut twice, class(&b, None));
    let did = LambdaAnalysis.merge(&mut twice, class(&b, None));
    assert_eq!(once.free, twice.free);
    assert_eq!(did.0, false);
    let mut other_way = class(&b, None);
    LambdaAnalysis.merge(&mut other_way, class(&a, None));
    assert_eq!(once.free, other_way.free);
}

#[test]
fn modify_does_nothing_without_a_constant() {
    assert_eq!(LambdaAnalysis::modify(&graph(), 3), Action::Nothing);
}

#[test]
fn modify_adds_the_literal() {
    assert_eq!(LambdaAnalysis::modify(&graph(), 1), Action::AddAndUnion { id: 1, node: Literal::Num(2) });
    assert_eq!(Literal::Num(2).node(), Lambda::Num(2));
    assert_eq!(Literal::Bool(true).node(), Lambda::Bool(true));
}

#[test]
fn modify_explains_the_union_where_asked() {
    let mut g = EGraph::new(true);
    assert!(g.are_explanations_enabled());
    let sum = Proof::Add(Literal::Num(3), Literal::Num(4));
    g.insert(9, class(&[], Some((Literal::Num(7), sum))));
    assert_eq!(
        LambdaAnalysis::modify(&g, 9),
        Action::UnionInstantiations { from: Literal::Num(7), to: sum }
    );
}

#[test]
fn a_graph_gives_back_what_was_recorded() {
    let g = graph();
    assert_eq!(g.get(3).free, set(&[10, 11]));
    assert_eq!(g.get(0).constant, num(1));
    assert!(!g.are_explanations_enabled());
}

#[test]
fn nodes_list_their_children_in_order() {
    assert_eq!(Lambda::Let(1, 2, 3).children(), vec![1, 2, 3]);
    assert_eq!(Lambda::If(3, 2, 1).children(), vec![3, 2, 1]);
    assert_eq!(Lambda::Lambda(4, 5).children(), vec![4, 5]);
    assert_eq!(Lambda::Var(6).children(), vec![6]);
    assert_eq!(Lambda::Num(6).children(), Vec::<u32>::new());
    assert_eq!(Lambda::Num(6).num(), Some(6));
    assert_eq!(Lambda::Bool(true).num(), None);
    assert_eq!(Lambda::Var(6).num(), None);
}

#[test]
fn conditions_of_the_lambda_rules() {
    let g = graph();
    assert!(is_const(&g, 0));
    assert!(is_const(&g, 2));
    assert!(!is_const(&g, 3));
    assert!(is_not_same_var(3, 4));
    assert!(!is_not_same_var(3, 3));
}

fn applier() -> CaptureAvoid {
    CaptureAvoid { v2: "?v2", e: "?e", if_not_free: "not free", if_free: "free" }
}

#[test]
fn capture_avoidance_renames_only_where_the_binder_is_free_in_the_value() {
    let g = graph();
    assert_eq!(applier().apply_one(&g, 3, 10), "free");
    assert_eq!(applier().apply_one(&g, 3, 11), "free");
    assert_eq!(applier().apply_one(&g, 3, 12), "not free");
    assert_eq!(applier().apply_one(&g, 0, 10), "not free");
}

/// Records `node` as the only member of class `id`.
fn add(g: &mut EGraph, id: u32, node: Lambda) {
    let data = LambdaAnalysis::make(g, &node);
    g.insert(id, data);
}

#[test]
fn capture_avoidance_keeps_the_free_variables() {
    // v1 = 20, v2 = 21; e is class 1 with free {21, 30}; body is class 2 with free {20, 21, 31}.
    let (v1, v2, e, body, fresh) = (20, 21, 1, 2, 40);
    let mut g = EGraph::new(false);
    g.insert(e, class(&[21, 30], None));
    g.insert(body, class(&[20, 21, 31], None));
    // (lam fresh (let v1 e (let v2 (var fresh) body)))
    add(&mut g, 3, Lambda::Var(fresh));
    add(&mut g, 4, Lambda::Let(v2, 3, body));
    add(&mut g, 5, Lambda::Let(v1, e, 4));
    let result = LambdaAnalysis::make(&g, &Lambda::Lambda(fresh, 5));
    // (free(e) + (free(body) - v1)) - fresh
    assert_eq!(result.free, set(&[21, 30, 31]));
    assert!(result.free.contains(&v2));
    assert!(!result.free.contains(&fresh));
    // the term that was matched, (let v1 e (lam v2 body)), has the same free variables
    add(&mut g, 6, Lambda::Lambda(v2, body));
    assert_eq!(LambdaAnalysis::make(&g, &Lambda::Let(v1, e, 6)).free, result.free);
}

#[test]
fn pushing_the_let_under_the_binder_keeps_the_free_variables() {
    let (v1, v2, e, body) = (20, 21, 1, 2);
    let mut g = EGraph::new(false);
    g.insert(e, class(&[30], None));
    g.insert(body, class(&[20, 21, 31], None));
    add(&mut g, 3, Lambda::Lambda(v2, body));
    add(&mut g, 4, Lambda::Let(v1, e, body));
    let before = LambdaAnalysis::make(&g, &Lambda::Let(v1, e, 3));
    let after = LambdaAnalysis::make(&g, &Lambda::Lambda(v2, 4));
    assert_eq!(before.free, set(&[30, 31]));
    assert_eq!(after.free, before.free);
}

/// The set of three: classes 0, 1, 2 hold the numbers 1, 2, 3.
fn leaves() -> EGraph {
    let mut g = EGraph::new(false);
    add(&mut g, 0, Lambda::Num(1));
    add(&mut g, 1, Lambda::Num(2));
    add(&mut g, 2, Lambda::Num(3));
    g
}

#[test]
fn folding_gives_the_value_of_the_term_in_any_order() {
    // (= (+ 1 (+ 2 3)) (+ (+ 1 2) 3)), with the inner sums folded in either order
    let mut first = leaves();
    add(&mut first, 3, Lambda::Add(1, 2));
    add(&mut first, 4, Lambda::Add(0, 3));
    add(&mut first, 5, Lambda::Add(0, 1));
    add(&mut first, 6, Lambda::Add(5, 2));
    add(&mut first, 7, Lambda::Eq(4, 6));
    let mut second = leaves();
    add(&mut second, 5, Lambda::Add(0, 1));
    add(&mut second, 6, Lambda::Add(5, 2));
    add(&mut second, 3, Lambda::Add(1, 2));
    add(&mut second, 4, Lambda::Add(0, 3));
    add(&mut second, 7, Lambda::Eq(4, 6));
    for g in [first, second] {
        assert_eq!(g.get(3).constant.map(|c| c.0), Some(Literal::Num(5)));
        assert_eq!(g.get(4).constant.map(|c| c.0), Some(Literal::Num(1 + (2 + 3))));
        assert_eq!(g.get(6).constant.map(|c| c.0), Some(Literal::Num((1 + 2) + 3)));
        assert_eq!(g.get(7).constant.map(|c| c.0), Some(Literal::Bool(true)));
    }
}
