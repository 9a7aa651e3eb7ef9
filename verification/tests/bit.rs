use bounded_integer::bit::Bit;
use bounded_integer::BoundedInteger;

#[test]
fn bit_from_repr() {
    assert_eq!(Some(Bit::U0), Bit::from_repr(0));
    assert_eq!(Some(Bit::U1), Bit::from_repr(1));
    assert_eq!(None, Bit::from_repr(2));
}

#[test]
fn bit_to_repr() {
    assert_eq!(0, Bit::U0.to_repr());
    assert_eq!(1, Bit::U1.to_repr());
}

#[test]
fn bit_min_value() {
    assert_eq!(Bit::U0, Bit::min_value());
}

#[test]
fn bit_max_value() {
    assert_eq!(Bit::U1, Bit::max_value());
}

#[test]
fn bit_checked_add() {
    assert_eq!(Some(Bit::U0), Bit::U0.checked_add(Bit::U0));
    assert_eq!(Some(Bit::U1), Bit::U0.checked_add(Bit::U1));
    assert_eq!(Some(Bit::U1), Bit::U1.checked_add(Bit::U0));
    assert_eq!(None, Bit::U1.checked_add(Bit::U1));
}

#[test]
fn bit_checked_add_repr() {
    assert_eq!(Some(Bit::U0), Bit::U0.checked_add_repr(0));
    assert_eq!(Some(Bit::U1), Bit::U0.checked_add_repr(1));
    assert_eq!(Some(Bit::U1), Bit::U1.checked_add_repr(0));
    assert_eq!(None, Bit::U1.checked_add_repr(1));
    assert_eq!(None, Bit::U0.checked_add_repr(2));
}

#[test]
fn bit_checked_sub() {
    assert_eq!(Some(Bit::U0), Bit::U0.checked_sub(Bit::U0));
    assert_eq!(Some(Bit::U1), Bit::U1.checked_sub(Bit::U0));
    assert_eq!(Some(Bit::U0), Bit::U1.checked_sub(Bit::U1));
    assert_eq!(None, Bit::U0.checked_sub(Bit::U1));
}

#[test]
fn bit_checked_sub_repr() {
    assert_eq!(Some(Bit::U0), Bit::U0.checked_sub_repr(0));
    assert_eq!(Some(Bit::U1), Bit::U1.checked_sub_repr(0));
    assert_eq!(Some(Bit::U0), Bit::U1.checked_sub_repr(1));
    assert_eq!(None, Bit::U0.checked_sub_repr(1));
    assert_eq!(None, Bit::U0.checked_sub_repr(2));
    assert_eq!(None, Bit::U1.checked_sub_repr(2));
}

#[test]
fn bit_saturating_add() {
    assert_eq!(Bit::U1, Bit::U1.saturating_add(Bit::U1));
}

#[test]
fn bit_saturating_add_repr() {
    assert_eq!(Bit::U1, Bit::U1.saturating_add_repr(1));
    assert_eq!(Bit::U1, Bit::U0.saturating_add_repr(2));
}

#[test]
fn bit_saturating_sub() {
    assert_eq!(Bit::U0, Bit::U0.saturating_sub(Bit::U1));
}

#[test]
fn bit_saturating_sub_repr() {
    assert_eq!(Bit::U0, Bit::U0.saturating_sub_repr(1));
    assert_eq!(Bit::U0, Bit::U1.saturating_sub_repr(2));
}
