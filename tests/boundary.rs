use abstaction::{
    Boundary, BoundaryCheckError, BoundaryCheckResult, BoundaryError, Bottom, Compare, Limit,
    Top,
};
use std::cmp::Ordering;

fn lim(point: i64, equal: bool) -> Limit<i64> {
    Limit { point, equal }
}

#[test]
fn compare_truth_table() {
    let table = [
        (Compare::LT, [true, false, false]),
        (Compare::LTE, [true, true, false]),
        (Compare::GT, [false, false, true]),
        (Compare::GTE, [false, true, true]),
        (Compare::EQ, [false, true, false]),
    ];
    for (cmp, expected) in table.iter() {
        assert_eq!(cmp.is_in(Ordering::Less), expected[0]);
        assert_eq!(cmp.is_in(Ordering::Equal), expected[1]);
        assert_eq!(cmp.is_in(Ordering::Greater), expected[2]);
    }
}

#[test]
fn boundary_half_open_range() {
    let b = Boundary::create(0, Some(lim(20, false)), Some(lim(0, true))).unwrap();
    assert!(matches!(b.is_in(0), BoundaryCheckResult::Satisfied));
    assert!(matches!(b.is_in(19), BoundaryCheckResult::Satisfied));
    assert!(matches!(
        b.is_in(20),
        BoundaryCheckResult::Violated(BoundaryCheckError::TooHigh { value: 20, top: Top { limit: Limit { point: 20, equal: false } } })
    ));
    assert!(matches!(
        b.is_in(-1),
        BoundaryCheckResult::Violated(BoundaryCheckError::TooLow { value: -1, bottom: Bottom { limit: Limit { point: 0, equal: true } } })
    ));
}

#[test]
fn boundary_exclusive_bottom_inclusive_top() {
    let b = Boundary::create(3, Some(lim(5, true)), Some(lim(-5, false))).unwrap();
    assert!(matches!(b.is_in(-5), BoundaryCheckResult::Violated(BoundaryCheckError::TooLow { value: -5, .. })));
    assert!(matches!(b.is_in(-4), BoundaryCheckResult::Satisfied));
    assert!(matches!(b.is_in(5), BoundaryCheckResult::Satisfied));
    assert!(matches!(b.is_in(6), BoundaryCheckResult::Violated(BoundaryCheckError::TooHigh { value: 6, .. })));
}

#[test]
fn boundary_open_ended() {
    let only_top = Boundary::create(1, Some(lim(0, true)), None).unwrap();
    assert!(matches!(only_top.is_in(i64::MIN), BoundaryCheckResult::Satisfied));
    assert!(matches!(only_top.is_in(1), BoundaryCheckResult::Violated(BoundaryCheckError::TooHigh { .. })));
    let only_bottom = Boundary::create(1, None, Some(lim(0, false))).unwrap();
    assert!(matches!(only_bottom.is_in(i64::MAX), BoundaryCheckResult::Satisfied));
    assert!(matches!(only_bottom.is_in(0), BoundaryCheckResult::Violated(BoundaryCheckError::TooLow { .. })));
    let none: Boundary<i64> = Boundary::create(1, None, None).unwrap();
    assert!(matches!(none.is_in(i64::MIN), BoundaryCheckResult::Satisfied));
    assert!(matches!(none.is_in(i64::MAX), BoundaryCheckResult::Satisfied));
    assert_eq!(none.id, 1);
}

#[test]
fn boundary_equal_points_are_a_fixed_point() {
    let flags = [(true, true), (true, false), (false, true), (false, false)];
    for (t, b) in flags.iter() {
        let r = Boundary::create(0, Some(lim(5, *t)), Some(lim(5, *b)));
        assert!(matches!(r, Err(BoundaryError::FixedPoint(5))));
    }
}

#[test]
fn boundary_inverted_limits_are_invalid() {
    let r = Boundary::create(0, Some(lim(0, true)), Some(lim(10, true)));
    match r {
        Err(BoundaryError::InvalidLimits { top, bottom }) => {
            assert_eq!(top.point, 0);
            assert_eq!(bottom.point, 10);
        }
        _ => panic!("expected InvalidLimits"),
    }
}

#[test]
fn boundary_new_has_no_limits() {
    let b: Boundary<i64> = Boundary::new(7);
    assert_eq!(b.id, 7);
    assert!(b.top.is_none());
    assert!(b.bot.is_none());
}

#[test]
fn boundary_set_top_checks_against_bottom() {
    let mut b = Boundary::create(0, None, Some(lim(10, true))).unwrap();
    assert!(matches!(b.set_top(lim(5, true)), Err(BoundaryError::InvalidLimits { .. })));
    assert!(b.top.is_none());
    assert!(matches!(b.set_top(lim(10, false)), Err(BoundaryError::FixedPoint(10))));
    assert!(b.top.is_none());
    assert!(b.set_top(lim(11, false)).is_ok());
    assert_eq!(b.top.unwrap().limit.point, 11);
    assert_eq!(b.bot.unwrap().limit.point, 10);
}

#[test]
fn boundary_set_bot_checks_against_top() {
    let mut b = Boundary::create(0, Some(lim(10, true)), None).unwrap();
    assert!(matches!(b.set_bot(lim(12, true)), Err(BoundaryError::InvalidLimits { .. })));
    assert!(b.bot.is_none());
    assert!(b.set_bot(lim(-3, false)).is_ok());
    assert_eq!(b.bot.unwrap().limit.point, -3);
    assert!(!b.bot.unwrap().limit.equal);
    let mut free: Boundary<i64> = Boundary::new(1);
    assert!(free.set_bot(lim(100, true)).is_ok());
    assert!(free.set_top(lim(-100, true)).is_err());
}

#[test]
fn boundary_update_is_atomic() {
    let mut b = Boundary::create(0, Some(lim(20, false)), Some(lim(0, true))).unwrap();
    assert!(matches!(b.update(lim(1, true), lim(2, true)), Err(BoundaryError::InvalidLimits { .. })));
    assert_eq!(b.top.unwrap().limit.point, 20);
    assert_eq!(b.bot.unwrap().limit.point, 0);
    assert!(b.update(lim(50, true), lim(40, false)).is_ok());
    assert_eq!(b.top.unwrap().limit.point, 50);
    assert_eq!(b.bot.unwrap().limit.point, 40);
    assert!(matches!(b.is_in(40), BoundaryCheckResult::Violated(BoundaryCheckError::TooLow { .. })));
    assert!(matches!(b.is_in(50), BoundaryCheckResult::Satisfied));
}

#[test]
fn boundary_reports_only_bottom_when_both_fail() {
    let mut b: Boundary<i64> = Boundary::new(0);
    b.top = Some(Top { limit: lim(0, true) });
    b.bot = Some(Bottom { limit: lim(10, true) });
    assert!(matches!(b.is_in(5), BoundaryCheckResult::Violated(BoundaryCheckError::TooLow { value: 5, .. })));
    assert!(matches!(b.is_in(20), BoundaryCheckResult::Violated(BoundaryCheckError::TooHigh { value: 20, .. })));
    assert!(matches!(b.is_in(-5), BoundaryCheckResult::Violated(BoundaryCheckError::TooLow { value: -5, .. })));
}

#[test]
fn default_limits_are_the_extremes() {
    let t: Top<i64> = Top::default();
    let b: Bottom<i64> = Bottom::default();
    assert_eq!(t.limit.point, i64::MAX);
    assert!(t.limit.equal);
    assert_eq!(b.limit.point, i64::MIN);
    assert!(b.limit.equal);
    assert_eq!(<i64 as abstaction::MinMax>::min(), i64::MIN);
    assert_eq!(<i64 as abstaction::MinMax>::max(), i64::MAX);
}
