use std::cmp::Ordering;

use falcon_core::constants::{constants, Constant, Constants, ConstantsAnalysis};
use falcon_core::error::Error;
use falcon_core::fixed_point::FixedPointAnalysis;
use falcon_core::il::{Constant as Value, Expression, Function, Operation, Scalar};

fn var(name: &str) -> Scalar {
    Scalar::new(name, 32)
}

fn value(v: u128) -> Value {
    Value { value: v, bits: 32 }
}

fn assign(name: &str, src: Expression) -> Option<Operation> {
    Some(Operation::Assign { dst: var(name), src })
}

fn state(entries: &[(&str, Constant)]) -> Constants {
    let mut s = Constants::new();
    for (name, c) in entries {
        s.set_scalar(var(name), *c);
    }
    s
}

#[test]
fn end_to_end_branch_merge() {
    let mut f = Function::new(assign("x", Expression::constant(5, 32)));
    let l1 = f.add_location(assign(
        "y",
        Expression::add(Expression::scalar("x", 32), Expression::constant(3, 32)).unwrap(),
    ));
    let l2 = f.add_location(assign("z", Expression::scalar("y", 32)));
    let l3 = f.add_location(assign("z", Expression::constant(10, 32)));
    let l4 = f.add_location(None);
    f.add_edge(0, l1).unwrap();
    f.add_edge(l1, l2).unwrap();
    f.add_edge(l1, l3).unwrap();
    f.add_edge(l2, l4).unwrap();
    f.add_edge(l3, l4).unwrap();
    let pre = constants(&f).unwrap();
    assert_eq!(pre.len(), 5);
    let merge = pre[l4].as_ref().unwrap();
    assert_eq!(merge.scalar(&var("x")), Some(value(5)));
    assert_eq!(merge.scalar(&var("y")), Some(value(8)));
    assert_eq!(merge.scalar(&var("z")), None);
    assert_eq!(merge.binding(&var("z")), Some(Constant::Top));
    for l in [l2, l3] {
        let before = pre[l].as_ref().unwrap();
        assert_eq!(before.binding(&var("x")), Some(Constant::Constant(value(5))));
        assert_eq!(before.binding(&var("y")), Some(Constant::Constant(value(8))));
    }
    // the entry has no predecessor
    assert!(pre[0].as_ref().unwrap().same_as(&Constants::new()));
}

#[test]
fn loop_settles_to_top() {
    let mut f = Function::new(assign("x", Expression::constant(0, 32)));
    let body = f.add_location(assign(
        "x",
        Expression::add(Expression::scalar("x", 32), Expression::constant(1, 32)).unwrap(),
    ));
    let exit = f.add_location(None);
    f.add_edge(0, body).unwrap();
    f.add_edge(body, body).unwrap();
    f.add_edge(body, exit).unwrap();
    let pre = constants(&f).unwrap();
    assert_eq!(pre[exit].as_ref().unwrap().binding(&var("x")), Some(Constant::Top));
    assert_eq!(pre[body].as_ref().unwrap().binding(&var("x")), Some(Constant::Top));
}

#[test]
fn unreachable_location_has_no_state() {
    let mut f = Function::new(assign("x", Expression::constant(1, 32)));
    let dead = f.add_location(assign("y", Expression::constant(2, 32)));
    let pre = constants(&f).unwrap();
    assert!(pre[0].is_some());
    assert!(pre[dead].is_none());
}

#[test]
fn malformed_function_is_rejected() {
    let mut f = Function::new(None);
    f.edges.push((0, 7));
    assert_eq!(constants(&f).err(), Some(Error::BadLocation));
    let mut g = Function::new(None);
    g.entry = 3;
    assert_eq!(constants(&g).err(), Some(Error::BadLocation));
    let mut h = Function::new(None);
    assert_eq!(h.add_edge(0, 1), Err(Error::BadLocation));
}

#[test]
fn join_keeps_one_sided_bindings() {
    let a = state(&[("x", Constant::Constant(value(5)))]);
    let b = state(&[("y", Constant::Constant(value(6)))]);
    let j = a.join(&b);
    assert_eq!(j.binding(&var("x")), Some(Constant::Constant(value(5))));
    assert_eq!(j.binding(&var("y")), Some(Constant::Constant(value(6))));
}

#[test]
fn join_of_different_values_is_top() {
    let a = state(&[("x", Constant::Constant(value(5))), ("y", Constant::Constant(value(1)))]);
    let b = state(&[("x", Constant::Constant(value(6))), ("y", Constant::Constant(value(1)))]);
    let j = a.join(&b);
    assert_eq!(j.binding(&var("x")), Some(Constant::Top));
    assert_eq!(j.binding(&var("y")), Some(Constant::Constant(value(1))));
}

#[test]
fn join_is_idempotent() {
    let a = state(&[("x", Constant::Constant(value(5))), ("y", Constant::Top)]);
    let j = a.copy().join(&a);
    assert!(j.same_as(&a));
}

#[test]
fn join_is_above_both_sides() {
    let a = state(&[("x", Constant::Constant(value(5)))]);
    let b = state(&[("x", Constant::Constant(value(6))), ("y", Constant::Constant(value(2)))]);
    let j = a.copy().join(&b);
    assert!(matches!(a.partial_cmp(&j), Some(Ordering::Less) | Some(Ordering::Equal)));
    assert!(matches!(b.partial_cmp(&j), Some(Ordering::Less) | Some(Ordering::Equal)));
    assert!(matches!(j.partial_cmp(&a), Some(Ordering::Greater)));
}

#[test]
fn state_order() {
    let empty = Constants::new();
    let five = state(&[("x", Constant::Constant(value(5)))]);
    let six = state(&[("x", Constant::Constant(value(6)))]);
    let top = state(&[("x", Constant::Top)]);
    let other = state(&[("y", Constant::Top)]);
    assert_eq!(empty.partial_cmp(&five), Some(Ordering::Less));
    assert_eq!(five.partial_cmp(&empty), Some(Ordering::Greater));
    assert_eq!(five.partial_cmp(&five.copy()), Some(Ordering::Equal));
    assert_eq!(five.partial_cmp(&top), Some(Ordering::Less));
    assert_eq!(top.partial_cmp(&five), Some(Ordering::Greater));
    assert_eq!(five.partial_cmp(&six), None);
    assert_eq!(five.partial_cmp(&other), None);
    let up_down_a = state(&[("x", Constant::Constant(value(5))), ("y", Constant::Top)]);
    let up_down_b = state(&[("x", Constant::Top), ("y", Constant::Constant(value(1)))]);
    assert_eq!(up_down_a.partial_cmp(&up_down_b), None);
    let two = state(&[("x", Constant::Top), ("y", Constant::Top)]);
    assert_eq!(five.partial_cmp(&two), Some(Ordering::Less));
    assert_eq!(six.partial_cmp(&state(&[("x", Constant::Constant(value(1))), ("y", Constant::Top)])), None);
}

#[test]
fn value_order() {
    let five = Constant::Constant(value(5));
    let six = Constant::Constant(value(6));
    assert_eq!(Constant::Top.partial_cmp(&five), Some(Ordering::Greater));
    assert_eq!(Constant::Bottom.partial_cmp(&five), Some(Ordering::Less));
    assert_eq!(five.partial_cmp(&six), None);
    assert_eq!(five.partial_cmp(&five), Some(Ordering::Equal));
    assert_eq!(Constant::Bottom.partial_cmp(&Constant::Top), Some(Ordering::Less));
    assert_eq!(five.get(), Some(value(5)));
    assert_eq!(Constant::Top.get(), None);
}

#[test]
fn eval_substitutes_known_values() {
    let s = state(&[("x", Constant::Constant(value(5))), ("t", Constant::Top)]);
    let e = Expression::add(Expression::scalar("x", 32), Expression::constant(3, 32)).unwrap();
    assert_eq!(s.eval(&e), Some(value(8)));
    let unknown = Expression::add(Expression::scalar("y", 32), Expression::constant(3, 32)).unwrap();
    assert_eq!(s.eval(&unknown), None);
    let top = Expression::add(Expression::scalar("t", 32), Expression::constant(3, 32)).unwrap();
    assert_eq!(s.eval(&top), None);
}

#[test]
fn trans_assign_load_store() {
    let mut f = Function::new(assign("x", Expression::constant(5, 32)));
    let load = f.add_location(Some(Operation::Load { dst: var("y"), index: Expression::constant(0, 32) }));
    let store = f.add_location(Some(Operation::Store {
        index: Expression::constant(0, 32),
        src: Expression::constant(1, 32),
    }));
    let branch = f.add_location(Some(Operation::Branch { target: Expression::scalar("x", 32) }));
    let raise = f.add_location(Some(Operation::Raise { expr: Expression::constant(0, 32) }));
    let empty = f.add_location(None);
    let unknown = f.add_location(assign("z", Expression::scalar("w", 32)));
    let a = ConstantsAnalysis {};
    let s0 = a.trans(&f, 0, None).unwrap();
    assert_eq!(s0.binding(&var("x")), Some(Constant::Constant(value(5))));
    let s1 = a.trans(&f, load, Some(s0.copy())).unwrap();
    assert_eq!(s1.binding(&var("y")), Some(Constant::Top));
    assert_eq!(s1.binding(&var("x")), Some(Constant::Constant(value(5))));
    for kill in [store, branch, raise] {
        let s2 = a.trans(&f, kill, Some(s1.copy())).unwrap();
        assert_eq!(s2.binding(&var("x")), Some(Constant::Top));
        assert_eq!(s2.binding(&var("y")), Some(Constant::Top));
        assert_eq!(s2.binding(&var("z")), None);
    }
    let s3 = a.trans(&f, empty, Some(s0.copy())).unwrap();
    assert!(s3.same_as(&s0));
    let s4 = a.trans(&f, unknown, Some(s0.copy())).unwrap();
    assert_eq!(s4.binding(&var("z")), Some(Constant::Top));
}

#[test]
fn top_and_set_scalar() {
    let mut s = state(&[("x", Constant::Constant(value(5)))]);
    s.set_scalar(var("x"), Constant::Constant(value(7)));
    assert_eq!(s.scalar(&var("x")), Some(value(7)));
    s.top();
    assert_eq!(s.binding(&var("x")), Some(Constant::Top));
    assert_eq!(s.scalar(&var("x")), None);
}

#[test]
fn one_sided_join_keeps_loop_value() {
    // entry -> y := x -> x := 5 -> back to y := x
    let mut f = Function::new(None);
    let copy = f.add_location(assign("y", Expression::scalar("x", 32)));
    let set = f.add_location(assign("x", Expression::constant(5, 32)));
    f.add_edge(0, copy).unwrap();
    f.add_edge(copy, set).unwrap();
    f.add_edge(set, copy).unwrap();
    let pre = constants(&f).unwrap();
    // the entry contributes no binding for x, so the value from the back
    // edge is kept rather than widened to Top; y was first found unknown,
    // and a recorded state only rises
    let before_copy = pre[copy].as_ref().unwrap();
    assert_eq!(before_copy.scalar(&var("x")), Some(value(5)));
    assert_eq!(before_copy.binding(&var("y")), Some(Constant::Top));
}

#[test]
fn visit_order_is_fixed() {
    // entry -> a (x := 1) and entry -> b (empty); both -> m (y := x) -> n.
    // b is queued last and visited first, so m first finds x unknown and
    // records y as Top; the recorded state then only rises.
    let mut f = Function::new(None);
    let a = f.add_location(assign("x", Expression::constant(1, 32)));
    let b = f.add_location(None);
    let m = f.add_location(assign("y", Expression::scalar("x", 32)));
    let n = f.add_location(None);
    f.add_edge(0, a).unwrap();
    f.add_edge(0, b).unwrap();
    f.add_edge(a, m).unwrap();
    f.add_edge(b, m).unwrap();
    f.add_edge(m, n).unwrap();
    let pre = constants(&f).unwrap();
    let before_m = pre[m].as_ref().unwrap();
    assert_eq!(before_m.scalar(&var("x")), Some(value(1)));
    let before_n = pre[n].as_ref().unwrap();
    assert_eq!(before_n.scalar(&var("x")), Some(value(1)));
    assert_eq!(before_n.binding(&var("y")), Some(Constant::Top));
}
