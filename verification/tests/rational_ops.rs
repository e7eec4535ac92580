use stock_new_report::rational::Num;

#[test]
fn from_int_is_canonical() {
    assert_eq!(Num::from_int(7), Num::Finite { num: 7, den: 1 });
    assert_eq!(Num::from_int(0), Num::Finite { num: 0, den: 1 });
    assert_eq!(Num::from_int(-3), Num::Finite { num: -3, den: 1 });
}

#[test]
fn new_reduces_to_lowest_terms() {
    assert_eq!(Num::new(400, 1000), Num::Finite { num: 2, den: 5 });
    assert_eq!(Num::new(400, 1000), Num::new(2, 5));
    assert_eq!(Num::new(6, 3), Num::Finite { num: 2, den: 1 });
}

#[test]
fn new_carries_sign_on_numerator() {
    assert_eq!(Num::new(1, -2), Num::Finite { num: -1, den: 2 });
    assert_eq!(Num::new(-1, -2), Num::Finite { num: 1, den: 2 });
    assert_eq!(Num::new(-4, 6), Num::Finite { num: -2, den: 3 });
}

#[test]
fn new_normalizes_zero() {
    assert_eq!(Num::new(0, 5), Num::Finite { num: 0, den: 1 });
    assert_eq!(Num::new(0, -5), Num::Finite { num: 0, den: 1 });
}

#[test]
fn zero_denominator_is_non_finite() {
    assert_eq!(Num::new(3, 0), Num::NonFinite);
    assert_eq!(Num::new(0, 0), Num::NonFinite);
}

#[test]
fn add_sub_div_exact() {
    let a = Num::new(1, 2);
    let b = Num::new(1, 3);
    assert_eq!(a.add(b), Num::new(5, 6));
    assert_eq!(a.sub(b), Num::new(1, 6));
    assert_eq!(a.div(b), Num::new(3, 2));
}

#[test]
fn division_by_zero_value_is_non_finite() {
    let a = Num::from_int(5);
    assert_eq!(a.div(Num::from_int(0)), Num::NonFinite);
}

#[test]
fn non_finite_propagates() {
    let bad = Num::NonFinite;
    let a = Num::from_int(5);
    assert_eq!(a.add(bad), Num::NonFinite);
    assert_eq!(bad.sub(a), Num::NonFinite);
    assert_eq!(bad.div(bad), Num::NonFinite);
}

#[test]
fn overflow_becomes_non_finite() {
    let big = Num::from_int(i64::MAX);
    assert_eq!(big.add(big), Num::NonFinite);
    let min = Num::from_int(i64::MIN);
    assert_eq!(min.sub(big), Num::NonFinite);
}

#[test]
fn min_magnitude_round_trips() {
    let min = Num::from_int(i64::MIN);
    assert_eq!(min.div(Num::from_int(1)), Num::Finite { num: i64::MIN, den: 1 });
    assert_eq!(min.div(min), Num::Finite { num: 1, den: 1 });
    assert_eq!(min.div(Num::from_int(-1)), Num::Finite { num: i64::MAX, den: 1 }.add(Num::from_int(1)));
}
