use lfest::currency::{BaseCurrency, Fraction, QuoteCurrency};
use lfest::market_state::MarketState;

#[test]
fn convert_is_the_notional() {
    let qty = BaseCurrency::new(2, 0);
    let price = QuoteCurrency::new(100, 0);
    assert_eq!(qty.convert(price), QuoteCurrency::new(200, 0));
    // Fractional quantities convert exactly.
    let qty = BaseCurrency::new(99, 1);
    assert_eq!(qty.convert(price), QuoteCurrency::new(990, 0));
}

#[test]
fn fraction_scaling() {
    // times_fraction scales exactly and truncates toward zero.
    let notional = QuoteCurrency::new(500, 0);
    assert_eq!(
        notional.times_fraction(Fraction::new(6, 4)),
        QuoteCurrency::new(3, 1)
    );
    // A negative rate (a rebate) keeps its sign.
    assert_eq!(
        notional.times_fraction(Fraction::new(-6, 4)),
        QuoteCurrency::new(-3, 1)
    );
}

#[test]
fn mid_price_is_the_midpoint() {
    let ms = MarketState::from_components(
        QuoteCurrency::new(99, 0),
        QuoteCurrency::new(100, 0),
        0,
        1,
    );
    assert_eq!(ms.mid_price(), QuoteCurrency::new(995, 1));
    assert_eq!(ms.bid(), QuoteCurrency::new(99, 0));
    assert_eq!(ms.ask(), QuoteCurrency::new(100, 0));
    assert_eq!(ms.step(), 1);
    assert_eq!(ms.current_timestamp_ns(), 0);
}

#[test]
fn amount_arithmetic() {
    let a = QuoteCurrency::new(15, 1);
    let b = QuoteCurrency::new(5, 1);
    assert_eq!(a.plus(b), QuoteCurrency::new(2, 0));
    assert_eq!(a.minus(b), QuoteCurrency::new(1, 0));
    assert_eq!(b.minus(a).abs(), QuoteCurrency::new(1, 0));
    assert_eq!(a.into_negative(), QuoteCurrency::new(-15, 1));
    assert!(QuoteCurrency::new_zero().is_zero());
}
