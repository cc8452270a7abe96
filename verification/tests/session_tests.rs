use eqsimp::session::{finish_simplify, Action, Request, RequestError, Response, RuleText, State};

fn bytes(s: &str) -> Vec<u8> {
    s.as_bytes().to_vec()
}

fn rule(name: &str, lhs: &str, rhs: &str) -> RuleText {
    RuleText { name: bytes(name), lhs: bytes(lhs), rhs: bytes(rhs) }
}

fn simplify(exprs: &[&str]) -> Request {
    Request::SimplifyExpressions {
        exprs: exprs.iter().map(|e| bytes(e)).collect(),
        constant_fold: true,
    }
}

fn version() -> Vec<u8> {
    bytes("0.1.0")
}

#[test]
fn version_is_echoed() {
    let mut st = State::default();
    match st.handle_request(Request::Version, version()) {
        Action::Respond(Response::Version(v)) => assert_eq!(v, bytes("0.1.0")),
        _ => panic!("expected a version response"),
    }
}

#[test]
fn simplify_without_rules_is_refused() {
    let mut st = State::default();
    match st.handle_request(simplify(&["(+ 1 2)"]), version()) {
        Action::Respond(Response::Error(RequestError::NoRules)) => {}
        _ => panic!("expected the no-rules error"),
    }
}

#[test]
fn simplify_after_failed_load_is_still_refused() {
    let mut st = State::default();
    match st.handle_request(Request::LoadRewrites(vec![rule("bad", "", "(+ a b)")]), version()) {
        Action::Respond(Response::Error(RequestError::Parse(_))) => {}
        _ => panic!("expected a parse error"),
    }
    match st.handle_request(simplify(&["(+ 1 2)"]), version()) {
        Action::Respond(Response::Error(RequestError::NoRules)) => {}
        _ => panic!("expected the no-rules error"),
    }
}

#[test]
fn load_reports_count_installed() {
    let mut st = State::default();
    let req = Request::LoadRewrites(vec![
        rule("comm-add", "(+ a b)", "(+ b a)"),
        rule("comm-mul", "(* a b)", "(* b a)"),
    ]);
    match st.handle_request(req, version()) {
        Action::Respond(Response::LoadRewrites(n)) => assert_eq!(n, 2),
        _ => panic!("expected a load-rewrites response"),
    }
}

#[test]
fn failed_load_keeps_previous_rules() {
    let mut st = State::default();
    let ok = Request::LoadRewrites(vec![rule("comm-add", "(+ a b)", "(+ b a)")]);
    match st.handle_request(ok, version()) {
        Action::Respond(Response::LoadRewrites(1)) => {}
        _ => panic!("expected one rule installed"),
    }
    // An empty pattern is malformed; the old rule set must survive.
    let bad = Request::LoadRewrites(vec![
        rule("other", "(* a 1)", "a"),
        rule("broken", "", "(+ a b)"),
    ]);
    match st.handle_request(bad, version()) {
        Action::Respond(Response::Error(RequestError::Parse(_))) => {}
        _ => panic!("expected a parse error"),
    }
    // A malformed (unbalanced) pattern fares the same.
    let bad2 = Request::LoadRewrites(vec![rule("broken", "(+ a", "(+ a b)")]);
    match st.handle_request(bad2, version()) {
        Action::Respond(Response::Error(RequestError::Parse(_))) => {}
        _ => panic!("expected a parse error"),
    }
    match st.handle_request(simplify(&["(+ 1 2)"]), version()) {
        Action::RunEngine { rules, exprs, constant_fold, node_limit } => {
            assert_eq!(rules.len(), 1);
            assert_eq!(rules[0].name, bytes("comm-add"));
            assert_eq!(rules[0].lhs, bytes("(+ a b)"));
            assert_eq!(rules[0].rhs, bytes("(+ b a)"));
            assert_eq!(exprs, vec![bytes("(+ 1 2)")]);
            assert!(constant_fold);
            assert_eq!(node_limit, 10000);
        }
        _ => panic!("expected an engine run"),
    }
}

#[test]
fn simplify_with_malformed_expression_is_refused() {
    let mut st = State::default();
    st.handle_request(Request::LoadRewrites(vec![rule("comm-add", "(+ a b)", "(+ b a)")]),
        version());
    match st.handle_request(simplify(&["(+ 1 2)", "(+ 1"]), version()) {
        Action::Respond(Response::Error(RequestError::Parse(_))) => {}
        _ => panic!("expected a parse error"),
    }
}

#[test]
fn simplify_leaves_state_unchanged_between_calls() {
    let mut st = State::default();
    st.handle_request(Request::LoadRewrites(vec![rule("comm-add", "(+ a b)", "(+ b a)")]),
        version());
    let first = st.handle_request(simplify(&["(+ x y)"]), version());
    let second = st.handle_request(simplify(&["(+ x y)"]), version());
    match (first, second) {
        (
            Action::RunEngine { rules: r1, exprs: e1, constant_fold: c1, node_limit: n1 },
            Action::RunEngine { rules: r2, exprs: e2, constant_fold: c2, node_limit: n2 },
        ) => {
            assert_eq!(r1.len(), r2.len());
            assert_eq!(r1[0].name, r2[0].name);
            assert_eq!(r1[0].lhs, r2[0].lhs);
            assert_eq!(r1[0].rhs, r2[0].rhs);
            assert_eq!(e1, e2);
            assert_eq!(c1, c2);
            assert_eq!(n1, n2);
        }
        _ => panic!("expected two identical engine runs"),
    }
}

#[test]
fn fold_flag_is_passed_through() {
    let mut st = State::default();
    st.handle_request(Request::LoadRewrites(vec![rule("comm-add", "(+ a b)", "(+ b a)")]),
        version());
    let req = Request::SimplifyExpressions { exprs: vec![bytes("x")], constant_fold: false };
    match st.handle_request(req, version()) {
        Action::RunEngine { constant_fold, .. } => assert!(!constant_fold),
        _ => panic!("expected an engine run"),
    }
}

#[test]
fn finish_simplify_computes_unit_costs() {
    let pairs = vec![
        (bytes("(+ 1 2)"), bytes("3")),
        (bytes("(* x (+ 1 2))"), bytes("(* x 3)")),
    ];
    match finish_simplify(pairs) {
        Ok(Response::SimplifyExpressions(cs)) => {
            assert_eq!(cs.len(), 2);
            assert_eq!(cs[0].initial_expr, bytes("(+ 1 2)"));
            assert_eq!(cs[0].initial_cost, 3);
            assert_eq!(cs[0].final_expr, bytes("3"));
            assert_eq!(cs[0].final_cost, 1);
            assert_eq!(cs[1].initial_cost, 5);
            assert_eq!(cs[1].final_cost, 3);
        }
        _ => panic!("expected comparisons"),
    }
}

#[test]
fn finish_simplify_rejects_unparseable_text() {
    assert!(finish_simplify(vec![(bytes("(+ 1"), bytes("3"))]).is_err());
}

#[test]
fn default_fold_flag_is_on() {
    assert!(eqsimp::default_constant_fold());
}
