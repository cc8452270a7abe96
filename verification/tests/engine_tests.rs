//! End-to-end runs through a real rewriting engine: the analysis, grammar
//! and session logic of the library drive an `egg` e-graph over
//! `SymbolLang`, exactly as a host does.

use egg::{AstSize, EGraph, Extractor, Id, Language, Pattern, RecExpr, Rewrite, Runner, SymbolLang};
use eqsimp::analysis::{ConstantFold, ENode};
use eqsimp::grammar::{lookup_op, print_bytes, Term};
use eqsimp::parser::parse;
use eqsimp::rational::Rat;
use eqsimp::session::{finish_simplify, Action, Request, Response, RuleText, State};

struct Fold {
    inner: ConstantFold,
}

impl egg::Analysis<SymbolLang> for Fold {
    type Data = Option<Rat>;

    fn make(egraph: &EGraph<SymbolLang, Self>, enode: &SymbolLang) -> Self::Data {
        let cf = &egraph.analysis.inner;
        let tok: Vec<u8> = enode.op.as_str().as_bytes().to_vec();
        if enode.children.is_empty() {
            match parse(&tok, false) {
                Ok(Term::Num(r)) => cf.make(&ENode::Num(r)),
                Ok(Term::App0(op)) => cf.make(&ENode::App(op, vec![])),
                _ => cf.make(&ENode::Var),
            }
        } else {
            match lookup_op(&tok) {
                Some(op) => {
                    let kids: Vec<Option<Rat>> =
                        enode.children.iter().map(|id| egraph[*id].data.clone()).collect();
                    cf.make(&ENode::App(op, kids))
                }
                None => None,
            }
        }
    }

    fn merge(&self, to: &mut Self::Data, from: Self::Data) -> bool {
        self.inner.merge(to, from)
    }

    fn modify(egraph: &mut EGraph<SymbolLang, Self>, id: Id) {
        let data = egraph[id].data.clone();
        if let Some((leaf, prune)) = egraph.analysis.inner.modify_plan(&data) {
            let text = String::from_utf8(print_bytes(&leaf)).unwrap();
            let added = egraph.add(SymbolLang::leaf(text));
            let (id, _) = egraph.union(id, added);
            if prune {
                egraph[id].nodes.retain(|n| n.is_leaf());
            }
        }
    }
}

/// Performs the engine run a session action asks for; yields the response.
fn run_engine(action: Action) -> Response {
    let (rules, exprs, constant_fold, node_limit) = match action {
        Action::RunEngine { rules, exprs, constant_fold, node_limit } => {
            (rules, exprs, constant_fold, node_limit)
        }
        Action::Respond(r) => return r,
    };
    let rewrites: Vec<Rewrite<SymbolLang, Fold>> = rules
        .iter()
        .map(|r| {
            let name = String::from_utf8(r.name.clone()).unwrap();
            let lhs: Pattern<SymbolLang> =
                std::str::from_utf8(&r.lhs).unwrap().parse().unwrap();
            let rhs: Pattern<SymbolLang> =
                std::str::from_utf8(&r.rhs).unwrap().parse().unwrap();
            Rewrite::new(name.clone(), name, lhs, rhs).unwrap()
        })
        .collect();
    let analysis = Fold { inner: ConstantFold { constant_fold, prune: true } };
    let mut runner = Runner::<SymbolLang, Fold>::new(analysis).with_node_limit(node_limit);
    for e in &exprs {
        let expr: RecExpr<SymbolLang> = std::str::from_utf8(e).unwrap().parse().unwrap();
        runner = runner.with_expr(&expr);
    }
    let initial: Vec<String> = {
        let mut extractor = Extractor::new(&runner.egraph, AstSize);
        runner.roots.iter().map(|id| extractor.find_best(*id).1.to_string()).collect()
    };
    runner = runner.run(&rewrites);
    let mut extractor = Extractor::new(&runner.egraph, AstSize);
    let pairs: Vec<(Vec<u8>, Vec<u8>)> = runner
        .roots
        .iter()
        .zip(initial)
        .map(|(id, first)| {
            let last = extractor.find_best(*id).1.to_string();
            (first.into_bytes(), last.into_bytes())
        })
        .collect();
    finish_simplify(pairs).unwrap()
}

fn bytes(s: &str) -> Vec<u8> {
    s.as_bytes().to_vec()
}

fn comm_add() -> Request {
    Request::LoadRewrites(vec![RuleText {
        name: bytes("comm-add"),
        lhs: bytes("(+ a b)"),
        rhs: bytes("(+ b a)"),
    }])
}

fn simplify(exprs: &[&str], constant_fold: bool) -> Request {
    Request::SimplifyExpressions {
        exprs: exprs.iter().map(|e| bytes(e)).collect(),
        constant_fold,
    }
}

fn run(st: &mut State, exprs: &[&str], constant_fold: bool) -> Vec<(String, usize, String, usize)> {
    let action = st.handle_request(simplify(exprs, constant_fold), bytes("0.1.0"));
    match run_engine(action) {
        Response::SimplifyExpressions(cs) => cs
            .into_iter()
            .map(|c| {
                (
                    String::from_utf8(c.initial_expr).unwrap(),
                    c.initial_cost,
                    String::from_utf8(c.final_expr).unwrap(),
                    c.final_cost,
                )
            })
            .collect(),
        _ => panic!("expected comparisons"),
    }
}

#[test]
fn exact_rational_expressions_fold_to_a_single_constant() {
    let mut st = State::default();
    st.handle_request(comm_add(), bytes("0.1.0"));
    let out = run(&mut st, &["(/ (* 6 2) (- 5 1))", "(+ 1/2 (* 3 1/6))", "(- 2 7)"], true);
    // The analysis folds at construction, so already the pre-run cheapest
    // form is the constant leaf with the expression's exact value.
    assert_eq!(out[0], ("3".to_string(), 1, "3".to_string(), 1));
    assert_eq!(out[1], ("1".to_string(), 1, "1".to_string(), 1));
    assert_eq!(out[2], ("-5".to_string(), 1, "-5".to_string(), 1));
}

#[test]
fn end_to_end_comm_add_folds_sum_to_constant() {
    let mut st = State::default();
    match st.handle_request(comm_add(), bytes("0.1.0")) {
        Action::Respond(Response::LoadRewrites(1)) => {}
        _ => panic!("expected one rule installed"),
    }
    let out = run(&mut st, &["(+ 1 2)"], true);
    let (_, _, last, final_cost) = &out[0];
    assert_eq!(last, "3");
    assert_eq!(*final_cost, 1);
}

#[test]
fn folding_off_leaves_constants_alone() {
    let mut st = State::default();
    st.handle_request(comm_add(), bytes("0.1.0"));
    let out = run(&mut st, &["(+ 1 2)"], false);
    assert_eq!(out[0].1, 3);
    assert_eq!(out[0].3, 3);
}

#[test]
fn sqrt_folds_through_the_engine_only_when_perfect() {
    let mut st = State::default();
    st.handle_request(comm_add(), bytes("0.1.0"));
    let out = run(&mut st, &["(sqrt 4/9)", "(sqrt 2)"], true);
    assert_eq!(out[0], ("2/3".to_string(), 1, "2/3".to_string(), 1));
    assert_eq!(out[1].0, "(sqrt 2)");
    assert_eq!(out[1].1, 2);
    assert_eq!(out[1].3, 2);
}

#[test]
fn repeated_simplify_requests_give_identical_results() {
    let mut st = State::default();
    st.handle_request(comm_add(), bytes("0.1.0"));
    let first = run(&mut st, &["(+ (+ 1 2) x)", "(pow 2 1/2)"], true);
    let second = run(&mut st, &["(+ (+ 1 2) x)", "(pow 2 1/2)"], true);
    assert_eq!(first, second);
}

#[test]
fn rewriting_with_pattern_variables_reduces_cost() {
    let mut st = State::default();
    let rule = Request::LoadRewrites(vec![RuleText {
        name: bytes("mul-one"),
        lhs: bytes("(* ?a 1)"),
        rhs: bytes("?a"),
    }]);
    match st.handle_request(rule, bytes("0.1.0")) {
        Action::Respond(Response::LoadRewrites(1)) => {}
        _ => panic!("expected one rule installed"),
    }
    let out = run(&mut st, &["(* x 1)"], true);
    assert_eq!(out[0], ("(* x 1)".to_string(), 3, "x".to_string(), 1));
}
