use bounded_integer::int_lit::IntLit;

#[test]
fn int_lit_succ_steps_through_a_range() {
    let n2 = IntLit { neg: true, magnitude: 2 };
    let n1 = n2.succ();
    assert_eq!(IntLit { neg: true, magnitude: 1 }, n1);
    let z0 = n1.succ();
    assert_eq!(IntLit { neg: false, magnitude: 0 }, z0);
    let p1 = z0.succ();
    assert_eq!(IntLit { neg: false, magnitude: 1 }, p1);
    let p2 = p1.succ();
    assert_eq!(IntLit { neg: false, magnitude: 2 }, p2);
}

#[test]
fn int_lit_ordering_is_numeric() {
    let n2 = IntLit { neg: true, magnitude: 2 };
    let n1 = IntLit { neg: true, magnitude: 1 };
    let z0 = IntLit { neg: false, magnitude: 0 };
    let p1 = IntLit { neg: false, magnitude: 1 };
    let p2 = IntLit { neg: false, magnitude: 2 };
    assert!(n2 < n1);
    assert!(n1 < z0);
    assert!(z0 < p1);
    assert!(p1 < p2);
    assert!(n2 < p1);
    assert!(p2 > n1);
    assert!(!(z0 < z0));
}
