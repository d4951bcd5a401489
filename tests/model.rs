use abstaction::{
    BoundaryCheckError, BoundaryError, Compare, DoubleConstrain, DoubleConstrainCheckError,
    DoubleConstrainCheckResult, Fixed, FixedCheckError, FixedCheckResult, Limit, Linear,
    LinearCheckError, LinearCheckResult, Manager, Model, ModelErrors, SingleConstrain,
    SingleConstrainCheckError, SingleConstrainCheckResult,
};

fn lim(point: i64, equal: bool) -> Limit<i64> {
    Limit { point, equal }
}

#[test]
fn fixed_equality() {
    let f = Fixed::new(0, 10i64);
    assert!(matches!(f.is_in(&10), FixedCheckResult::Satisfied));
    match f.is_in(&11) {
        FixedCheckResult::Violated(FixedCheckError::NotEqual { fixed, value }) => {
            assert_eq!(fixed.value, 10);
            assert_eq!(fixed.id, 0);
            assert_eq!(value, 11);
        }
        _ => panic!("expected NotEqual"),
    }
}

#[test]
fn linear_plain_at_most() {
    let l: Linear<i64, i64> = Linear::new(0, 1, None, None, Compare::LTE);
    assert!(matches!(l.is_in(&3, &3), LinearCheckResult::Satisfied));
    assert!(matches!(l.is_in(&2, &3), LinearCheckResult::Satisfied));
    assert!(matches!(l.is_in(&4, &3), LinearCheckResult::Violated(LinearCheckError::NotIn { left: 4, right: 3, .. })));
}

#[test]
fn linear_multiplies_before_adding() {
    let l: Linear<i64, i64> = Linear::new(0, 1, Some(2), Some(1), Compare::LTE);
    assert!(matches!(l.is_in(&3, &7), LinearCheckResult::Satisfied));
    match l.is_in(&3, &6) {
        LinearCheckResult::Violated(LinearCheckError::NotIn { formula, left, right }) => {
            assert_eq!(left, 3);
            assert_eq!(right, 6);
            assert_eq!(formula.mul, Some(2));
            assert_eq!(formula.off, Some(1));
        }
        _ => panic!("expected NotIn"),
    }
}

#[test]
fn linear_other_comparators() {
    let eq: Linear<i64, i64> = Linear::new(0, 1, Some(3), None, Compare::EQ);
    assert!(matches!(eq.is_in(&4, &12), LinearCheckResult::Satisfied));
    assert!(matches!(eq.is_in(&4, &13), LinearCheckResult::Violated(_)));
    let gt: Linear<i64, i64> = Linear::new(0, 1, None, Some(-5), Compare::GT);
    assert!(matches!(gt.is_in(&10, &4), LinearCheckResult::Satisfied));
    assert!(matches!(gt.is_in(&10, &5), LinearCheckResult::Violated(_)));
    let gte: Linear<i64, i64> = Linear::new(0, 1, None, Some(-5), Compare::GTE);
    assert!(matches!(gte.is_in(&10, &5), LinearCheckResult::Satisfied));
    let lt: Linear<i64, i64> = Linear::new(0, 1, Some(-1), None, Compare::LT);
    assert!(matches!(lt.is_in(&2, &-1), LinearCheckResult::Satisfied));
    assert!(matches!(lt.is_in(&2, &-2), LinearCheckResult::Violated(_)));
}

#[test]
fn constraint_unions_forward_checks() {
    let f = SingleConstrain::Fixed(Fixed::new(2, 5i64));
    assert!(matches!(f.check(&5), SingleConstrainCheckResult::Satisfied));
    assert!(matches!(f.check(&6), SingleConstrainCheckResult::Violated(SingleConstrainCheckError::FixedErr(_))));
    let d: DoubleConstrain<i64, i64> = DoubleConstrain::LinearRelation(Linear::new(0, 1, None, None, Compare::LT));
    assert!(matches!(d.check(&1i64, &2i64), DoubleConstrainCheckResult::Satisfied));
    assert!(matches!(d.check(&2i64, &2i64), DoubleConstrainCheckResult::Violated(DoubleConstrainCheckError::Linear(_))));
}

#[test]
fn model_reports_every_violation() {
    let mut m = Model::new();
    assert!(m.add_boundary(0, Some(lim(20, false)), Some(lim(0, true))).is_ok());
    m.add_fixed(0, 10);
    let errs = m.check_single(0, 25).unwrap();
    assert_eq!(errs.len(), 2);
    assert!(matches!(errs[0], SingleConstrainCheckError::BoundaryErr(BoundaryCheckError::TooHigh { value: 25, .. })));
    assert!(matches!(errs[1], SingleConstrainCheckError::FixedErr(FixedCheckError::NotEqual { value: 25, .. })));
    assert!(m.check_single(0, 10).is_none());
    let one = m.check_single(0, 5).unwrap();
    assert_eq!(one.len(), 1);
    assert!(matches!(one[0], SingleConstrainCheckError::FixedErr(_)));
}

#[test]
fn model_undeclared_id_reports_nothing() {
    let mut m = Model::new();
    assert!(m.check_single(3, i64::MIN).is_none());
    m.add_fixed(0, 1);
    assert!(m.check_single(3, 99).is_none());
    assert!(m.check_double(0, 1, 1, 2).is_none());
}

#[test]
fn model_refused_boundary_keeps_an_empty_list() {
    let mut m = Model::new();
    let r = m.add_boundary(4, Some(lim(1, true)), Some(lim(1, true)));
    assert!(matches!(r, Err(ModelErrors::Boundary(BoundaryError::FixedPoint(1)))));
    assert_eq!(m.single.get(&4).map(|v| v.len()), Some(0));
    let r = m.add_boundary(4, Some(lim(1, true)), Some(lim(3, true)));
    assert!(matches!(r, Err(ModelErrors::Boundary(BoundaryError::InvalidLimits { .. }))));
    assert!(m.check_single(4, 100).is_none());
}

#[test]
fn model_checks_pairs_in_declared_order() {
    let mut m = Model::new();
    m.add_linear(0, 1, Some(2), Some(1), Compare::LTE);
    m.add_linear(0, 1, None, None, Compare::GT);
    assert!(m.check_double(0, 3, 1, 6).is_some());
    let errs = m.check_double(0, 3, 1, 7).unwrap();
    assert_eq!(errs.len(), 1);
    assert!(matches!(errs[0], DoubleConstrainCheckError::Linear(LinearCheckError::NotIn { left: 3, right: 7, .. })));
    let both = m.check_double(0, 3, 1, 2).unwrap();
    assert_eq!(both.len(), 1);
    let both = m.check_double(0, 5, 1, 5).unwrap();
    assert_eq!(both.len(), 2);
    assert!(m.check_double(1, 3, 0, 7).is_none());
    assert!(m.check_double(0, 3, 1, 6).is_some());
    assert_eq!(m.double.get(&0).and_then(|inner| inner.get(&1)).map(|v| v.len()), Some(2));
}

#[test]
fn model_checks_are_repeatable() {
    let mut m = Model::new();
    m.add_fixed(0, 10);
    assert!(m.add_boundary(0, Some(lim(20, false)), Some(lim(0, true))).is_ok());
    m.add_linear(0, 2, None, Some(1), Compare::EQ);
    for _ in 0..3 {
        assert!(m.check_single(0, 10).is_none());
        assert_eq!(m.check_single(0, 30).map(|v| v.len()), Some(2));
        assert!(m.check_double(0, 1, 2, 2).is_none());
        assert_eq!(m.check_double(0, 1, 2, 3).map(|v| v.len()), Some(1));
    }
}

#[test]
fn manager_default_model() {
    let mgr = Manager::default();
    let list = mgr.model.single.get(&0).unwrap();
    assert_eq!(list.len(), 2);
    assert!(matches!(list[0], SingleConstrain::Fixed(Fixed { id: 0, value: 10 })));
    match &list[1] {
        SingleConstrain::Boundary(b) => {
            assert_eq!(b.top.unwrap().limit.point, 20);
            assert!(!b.top.unwrap().limit.equal);
            assert_eq!(b.bot.unwrap().limit.point, 0);
            assert!(b.bot.unwrap().limit.equal);
        }
        _ => panic!("expected a boundary"),
    }
    assert!(mgr.model.double.is_empty());
    assert!(mgr.model.check_single(0, 10).is_none());
    assert_eq!(mgr.model.check_single(0, 20).map(|v| v.len()), Some(2));
}
