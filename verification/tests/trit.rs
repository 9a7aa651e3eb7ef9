use bounded_integer::trit::STrit;
use bounded_integer::BoundedInteger;

#[test]
fn trit_from_repr() {
    assert_eq!(None, STrit::from_repr(-2));
    assert_eq!(Some(STrit::N1), STrit::from_repr(-1));
    assert_eq!(Some(STrit::U0), STrit::from_repr(0));
    assert_eq!(Some(STrit::P1), STrit::from_repr(1));
    assert_eq!(None, STrit::from_repr(2));
}

#[test]
fn trit_to_repr() {
    assert_eq!(-1, STrit::N1.to_repr());
    assert_eq!(0, STrit::U0.to_repr());
    assert_eq!(1, STrit::P1.to_repr());
}

#[test]
fn trit_min_value() {
    assert_eq!(STrit::N1, STrit::min_value());
}

#[test]
fn trit_max_value() {
    assert_eq!(STrit::P1, STrit::max_value());
}

#[test]
fn trit_checked_add() {
    assert_eq!(Some(STrit::U0), STrit::N1.checked_add(STrit::P1));
    assert_eq!(Some(STrit::U0), STrit::P1.checked_add(STrit::N1));
    assert_eq!(None, STrit::P1.checked_add(STrit::P1));
    assert_eq!(None, STrit::N1.checked_add(STrit::N1));
}

#[test]
fn trit_checked_add_repr() {
    assert_eq!(None, STrit::U0.checked_add_repr(2));
    assert_eq!(None, STrit::U0.checked_add_repr(-2));
}

#[test]
fn trit_checked_sub() {
    assert_eq!(Some(STrit::U0), STrit::P1.checked_sub(STrit::P1));
    assert_eq!(Some(STrit::U0), STrit::N1.checked_sub(STrit::N1));
    assert_eq!(None, STrit::N1.checked_sub(STrit::P1));
    assert_eq!(None, STrit::P1.checked_sub(STrit::N1));
}

#[test]
fn trit_checked_sub_repr() {
    assert_eq!(None, STrit::U0.checked_sub_repr(2));
    assert_eq!(None, STrit::U0.checked_sub_repr(-2));
}

#[test]
fn trit_saturating_add() {
    assert_eq!(STrit::P1, STrit::P1.saturating_add(STrit::P1));
    assert_eq!(STrit::N1, STrit::N1.saturating_add(STrit::N1));
}

#[test]
fn trit_saturating_add_repr() {
    assert_eq!(STrit::P1, STrit::U0.saturating_add_repr(2));
    assert_eq!(STrit::N1, STrit::U0.saturating_add_repr(-2));
}

#[test]
fn trit_saturating_sub() {
    assert_eq!(STrit::N1, STrit::N1.saturating_sub(STrit::P1));
    assert_eq!(STrit::P1, STrit::P1.saturating_sub(STrit::N1));
}

#[test]
fn trit_saturating_sub_repr() {
    assert_eq!(STrit::N1, STrit::U0.saturating_sub_repr(2));
    assert_eq!(STrit::P1, STrit::U0.saturating_sub_repr(-2));
}

#[test]
fn into() {
    assert_eq!(1i8, STrit::P1.into());
}

#[test]
fn ops_add_self() {
    assert_eq!(STrit::P1, STrit::U0.add(STrit::P1));
    assert_eq!(STrit::P1, STrit::U0.add(*&STrit::P1));
    assert_eq!(STrit::P1, (&STrit::U0).add(STrit::P1));
    assert_eq!(STrit::P1, (*&STrit::U0).add(*&STrit::P1));
}

#[test]
#[should_panic]
fn ops_add_self_overflow() {
    let _ = STrit::P1.add(STrit::P1);
}

#[test]
fn ops_add_repr() {
    assert_eq!(STrit::P1, STrit::U0.add_repr(1));
    assert_eq!(STrit::P1, STrit::U0.add_repr(*&1));
    assert_eq!(STrit::P1, (&STrit::U0).add_repr(1));
    assert_eq!(STrit::P1, (*&STrit::U0).add_repr(*&1));
}

#[test]
#[should_panic]
fn ops_add_repr_overflow() {
    let _ = STrit::P1.add_repr(1);
}

#[test]
fn ops_sub_self() {
    assert_eq!(STrit::U0, STrit::P1.sub(STrit::P1));
    assert_eq!(STrit::U0, STrit::P1.sub(*&STrit::P1));
    assert_eq!(STrit::U0, (&STrit::P1).sub(STrit::P1));
    assert_eq!(STrit::U0, (*&STrit::P1).sub(*&STrit::P1));
}

#[test]
#[should_panic]
fn ops_sub_self_overflow() {
    let _ = STrit::N1.sub(STrit::P1);
}

#[test]
fn ops_sub_repr() {
    assert_eq!(STrit::U0, STrit::P1.sub_repr(1));
    assert_eq!(STrit::U0, STrit::P1.sub_repr(*&1));
    assert_eq!(STrit::U0, (&STrit::P1).sub_repr(1));
    assert_eq!(STrit::U0, (*&STrit::P1).sub_repr(*&1));
}

#[test]
#[should_panic]
fn ops_sub_repr_overflow() {
    let _ = STrit::N1.sub_repr(1);
}
