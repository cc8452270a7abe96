use eqsimp::analysis::{ConstantFold, ENode};
use eqsimp::grammar::{print_bytes, Op, Term};
use eqsimp::parser::parse;
use eqsimp::rational::Rat;

fn rat(s: &str) -> Rat {
    match parse(&s.as_bytes().to_vec(), false).unwrap() {
        Term::Num(r) => r,
        _ => panic!("not a numeral: {}", s),
    }
}

fn show(r: &Rat) -> String {
    String::from_utf8(print_bytes(&Term::Num(r.clone()))).unwrap()
}

fn fold() -> ConstantFold {
    ConstantFold::default()
}

fn app2(op: Op, a: &str, b: &str) -> Option<Rat> {
    fold().make(&ENode::App(op, vec![Some(rat(a)), Some(rat(b))]))
}

fn app1(op: Op, a: &str) -> Option<Rat> {
    fold().make(&ENode::App(op, vec![Some(rat(a))]))
}

#[test]
fn arithmetic_folds_exactly() {
    assert_eq!(show(&app2(Op::Add, "2/3", "1/6").unwrap()), "5/6");
    assert_eq!(show(&app2(Op::Sub, "1/2", "1/3").unwrap()), "1/6");
    assert_eq!(show(&app2(Op::Mul, "2/3", "9/4").unwrap()), "3/2");
    assert_eq!(show(&app2(Op::Div, "1", "3").unwrap()), "1/3");
    assert_eq!(show(&app2(Op::Add, "1", "2").unwrap()), "3");
}

#[test]
fn unknown_operands_do_not_fold() {
    assert!(fold().make(&ENode::App(Op::Add, vec![None, Some(rat("1"))])).is_none());
    assert!(fold().make(&ENode::App(Op::Add, vec![Some(rat("1")), None])).is_none());
}

#[test]
fn div_with_zero_numerator_never_folds() {
    assert!(app2(Op::Div, "0", "5").is_none());
    assert!(app2(Op::Div, "0", "0").is_none());
    assert!(app2(Op::Div, "0/7", "-3/2").is_none());
    assert!(fold().make(&ENode::App(Op::Div, vec![Some(rat("0")), None])).is_none());
}

#[test]
fn div_by_zero_does_not_fold() {
    assert!(app2(Op::Div, "1", "0").is_none());
}

#[test]
fn sqrt_folds_only_perfect_squares() {
    assert_eq!(show(&app1(Op::Sqrt, "4/9").unwrap()), "2/3");
    assert_eq!(show(&app1(Op::Sqrt, "9/4").unwrap()), "3/2");
    assert_eq!(show(&app1(Op::Sqrt, "8/2").unwrap()), "2");
    assert!(app1(Op::Sqrt, "2").is_none());
    assert!(app1(Op::Sqrt, "4/5").is_none());
    assert!(app1(Op::Sqrt, "-9").is_none());
    assert!(app1(Op::Sqrt, "0").is_none());
}

#[test]
fn pow_with_non_integer_exponent_never_folds() {
    assert!(app2(Op::Pow, "2", "1/2").is_none());
    assert!(app2(Op::Pow, "4/9", "3/2").is_none());
    assert!(app2(Op::Pow, "0", "-1/3").is_none());
}

#[test]
fn pow_folds_non_negative_integer_exponents() {
    assert_eq!(show(&app2(Op::Pow, "2", "10").unwrap()), "1024");
    assert_eq!(show(&app2(Op::Pow, "2/3", "2").unwrap()), "4/9");
    assert_eq!(show(&app2(Op::Pow, "5", "0").unwrap()), "1");
    assert_eq!(show(&app2(Op::Pow, "0", "0").unwrap()), "1");
    assert!(app2(Op::Pow, "2", "-1").is_none());
}

#[test]
fn rounding_operators_fold() {
    assert_eq!(show(&app1(Op::Floor, "-1/2").unwrap()), "-1");
    assert_eq!(show(&app1(Op::Ceil, "-1/2").unwrap()), "0");
    assert_eq!(show(&app1(Op::Round, "3/2").unwrap()), "2");
    assert_eq!(show(&app1(Op::Round, "-3/2").unwrap()), "-2");
    assert_eq!(show(&app1(Op::Round, "1/3").unwrap()), "0");
    assert_eq!(show(&app1(Op::Fabs, "-2/3").unwrap()), "2/3");
    assert_eq!(show(&app1(Op::Neg, "2").unwrap()), "-2");
}

#[test]
fn transcendental_and_logical_kinds_never_fold() {
    assert!(app1(Op::Sin, "0").is_none());
    assert!(app1(Op::Exp, "1").is_none());
    assert!(app2(Op::Less, "1", "2").is_none());
    assert!(app2(Op::And, "1", "1").is_none());
    assert!(fold().make(&ENode::App(Op::Pi, vec![])).is_none());
}

#[test]
fn leaves_seed_their_own_value() {
    let v = fold().make(&ENode::Num(rat("7/2"))).unwrap();
    assert_eq!(show(&v), "7/2");
    assert!(fold().make(&ENode::Var).is_none());
}

#[test]
fn disabled_folding_derives_nothing() {
    let off = ConstantFold { constant_fold: false, prune: true };
    assert!(off.make(&ENode::Num(rat("3"))).is_none());
    assert!(off.make(&ENode::App(Op::Add, vec![Some(rat("1")), Some(rat("2"))])).is_none());
}

#[test]
fn merge_adopts_a_value_only_when_unknown() {
    let cf = fold();
    let mut to: Option<Rat> = None;
    assert!(cf.merge(&mut to, Some(rat("3"))));
    assert_eq!(show(to.as_ref().unwrap()), "3");
    assert!(!cf.merge(&mut to, Some(rat("4"))));
    assert_eq!(show(to.as_ref().unwrap()), "3");
    assert!(!cf.merge(&mut to, None));
    assert_eq!(show(to.as_ref().unwrap()), "3");
    let mut empty: Option<Rat> = None;
    assert!(!cf.merge(&mut empty, None));
    assert!(empty.is_none());
}

#[test]
fn modify_plan_injects_constant_and_prunes() {
    let cf = fold();
    let (leaf, prune) = cf.modify_plan(&Some(rat("3"))).unwrap();
    assert_eq!(String::from_utf8(print_bytes(&leaf)).unwrap(), "3");
    assert!(prune);
    let no_prune = ConstantFold { constant_fold: true, prune: false };
    let (_, prune2) = no_prune.modify_plan(&Some(rat("3"))).unwrap();
    assert!(!prune2);
    assert!(cf.modify_plan(&None).is_none());
}
