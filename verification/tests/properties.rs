use money::{Dollar, Money, MoneyLike};

#[test]
fn identity_holds_for_negative_and_zero_amounts() {
    let values = [
        Money::new(5, String::from("USD")),
        Money::new(-17, String::from("CHF")),
        Money::new(0, String::from("EUR")),
    ];
    for m in &values {
        assert!(Money::eq(m, &m.multiply(1)));
    }
}

#[test]
fn multiply_by_zero_is_currency_agnostic() {
    let m = Money::new(42, String::from("USD"));
    assert!(Money::eq(&m.multiply(0), &Money::new(0, String::from("EUR"))));
    assert!(Money::eq(&m.multiply(0), &Money::new(0, String::from("CHF"))));
    assert!(Money::eq(&m.multiply(0), &Money::new(0, String::new())));
}

#[test]
fn repeated_multiplication_composes() {
    let m = Money::new(7, String::from("USD"));
    let stepwise = m.multiply(3).multiply(4);
    let at_once = m.multiply(12);
    assert_eq!(stepwise.amount, at_once.amount);
    assert_eq!(stepwise.currency, m.currency);
    assert_eq!(at_once.amount, 84);
}

#[test]
fn money_multiply_keeps_receiver_intact() {
    let m = Money::new(9, String::from("EUR"));
    let _ = m.multiply(-6);
    assert_eq!(m.amount, 9);
    assert_eq!(m.currency, "EUR");
}

#[test]
fn equal_nonzero_amounts_different_currencies_are_unequal() {
    let a = Money::new(3, String::from("USD"));
    let b = Money::new(3, String::from("CHF"));
    assert!(!Money::eq(&a, &b));
    assert!(!Money::eq(&b, &a));
}

#[test]
fn zero_equality_is_symmetric_and_transitive() {
    let a = Money::new(0, String::from("USD"));
    let b = Money::new(0, String::from("CHF"));
    let c = Money::new(0, String::from("EUR"));
    assert!(Money::eq(&a, &b));
    assert!(Money::eq(&b, &a));
    assert!(Money::eq(&b, &c));
    assert!(Money::eq(&a, &c));
}

#[test]
fn scenario_dollar_times_three() {
    assert!(Money::eq(&Dollar::new(5).multiply(3), &Dollar::new(15)));
}

#[test]
fn scenario_dollar_times_minus_one() {
    assert!(Money::eq(&Dollar::new(5).multiply(-1), &Dollar::new(-5)));
}

#[test]
fn scenario_dollar_is_not_franc() {
    let franc = Money::new(10, String::from("CHF"));
    assert!(!Money::eq(&Dollar::new(10), &franc));
}

#[test]
fn scenario_zero_dollar_equals_zero_franc() {
    let franc = Money::new(0, String::from("CHF"));
    assert!(Money::eq(&Dollar::new(0), &franc));
}

#[test]
fn scenario_dollar_times_two_times_three() {
    assert!(Money::eq(&Dollar::new(5).multiply(2).multiply(3), &Dollar::new(30)));
}

#[test]
fn multiplication_wraps_on_overflow() {
    let top = Money::new(i32::MAX, String::from("USD"));
    assert_eq!(top.multiply(2).amount, -2);
    let bottom = Money::new(i32::MIN, String::from("USD"));
    assert_eq!(bottom.multiply(-1).amount, i32::MIN);
    assert_eq!(bottom.multiply(-1).currency, "USD");
}

#[test]
fn empty_currency_text_is_accepted() {
    let blank = Money::new(4, String::new());
    assert!(Money::eq(&blank, &blank.multiply(1)));
    assert!(!Money::eq(&blank, &Money::new(4, String::from("USD"))));
}

#[test]
fn dollar_multiply_stays_a_dollar() {
    let product: Dollar = Dollar::new(6).multiply(7);
    assert_eq!(product.amount, 42);
    assert_eq!(product.currency, "USD");
}

#[test]
fn trait_accessors_report_the_fields() {
    let m = Money::new(-3, String::from("EUR"));
    assert_eq!(m.amount(), -3);
    assert_eq!(m.currency(), "EUR");
    let d = Dollar::new(8);
    assert_eq!(d.amount(), 8);
    assert_eq!(d.currency(), "USD");
}

#[test]
fn with_amount_replaces_only_the_amount() {
    let m = Money::new(1, String::from("CHF")).with_amount(99);
    assert_eq!(m.amount, 99);
    assert_eq!(m.currency, "CHF");
}
