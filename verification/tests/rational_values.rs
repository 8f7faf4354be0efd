use pidctl::Rational;

#[test]
fn value_equality_ignores_representation() {
    assert!(Rational::new(1, 2).eq_value(Rational::new(2, 4)));
    assert!(Rational::new(-3, 6).eq_value(Rational::new(-1, 2)));
    assert!(!Rational::new(1, 2).eq_value(Rational::new(1, 3)));
    assert!(Rational::from_int(0).is_zero());
    assert!(!Rational::new(1, 1000).is_zero());
}

#[test]
fn ordering_by_value() {
    assert!(Rational::new(1, 3).lt(Rational::new(1, 2)));
    assert!(Rational::new(-1, 2).lt(Rational::new(1, 1000000)));
    assert!(Rational::new(1, 2).le(Rational::new(2, 4)));
    assert!(!Rational::new(1, 2).lt(Rational::new(2, 4)));
    assert!(Rational::from_int(5).is_positive());
    assert!(!Rational::from_int(-5).is_positive());
    assert!(!Rational::from_int(0).is_positive());
}

#[test]
fn exact_arithmetic() {
    let a = Rational::new(1, 10);
    let b = Rational::new(2, 10);
    assert!(a.add(b).eq_value(Rational::new(3, 10)));
    assert!(b.sub(a).eq_value(Rational::new(1, 10)));
    assert!(a.mul(b).eq_value(Rational::new(1, 50)));
    assert!(a.div(b).eq_value(Rational::new(1, 2)));
    let neg = Rational::from_int(-3);
    assert!(a.div(neg).eq_value(Rational::new(-1, 30)));
}

#[test]
fn checked_arithmetic_reports_overflow() {
    let top = Rational::new(i64::MAX, 1);
    assert!(top.checked_add(top).is_none());
    assert!(top.checked_mul(top).is_none());
    assert!(top.checked_sub(Rational::new(i64::MIN, 1)).is_none());
    let fine = Rational::new(1, 3).checked_add(Rational::new(1, 6)).unwrap();
    assert!(fine.eq_value(Rational::new(1, 2)));
    let quot = Rational::new(1, 3).checked_div(Rational::new(2, 1)).unwrap();
    assert!(quot.eq_value(Rational::new(1, 6)));
}
