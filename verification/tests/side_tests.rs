use lfest::currency::BaseCurrency;
use lfest::currency::QuoteCurrency;
use lfest::side::Side;

#[test]
fn side_from_taker_quantity() {
    assert_eq!(Side::from_taker_quantity(BaseCurrency::new(1, 0)), Side::Buy);
    assert_eq!(Side::from_taker_quantity(BaseCurrency::new(-1, 0)), Side::Sell);
}

#[test]
fn side_inverted() {
    assert_eq!(Side::Buy.inverted(), Side::Sell);
    assert_eq!(Side::Sell.inverted(), Side::Buy);
}

#[test]
fn quote_display() {
    println!("{:?}", QuoteCurrency::new(5, 1));
}

#[test]
fn linear_futures_pnl() {
    assert_eq!(
        QuoteCurrency::pnl(
            QuoteCurrency::new(100, 0),
            QuoteCurrency::new(110, 0),
            BaseCurrency::new(10, 0)
        ),
        QuoteCurrency::new(100, 0)
    );
    assert_eq!(
        QuoteCurrency::pnl(
            QuoteCurrency::new(100, 0),
            QuoteCurrency::new(110, 0),
            BaseCurrency::new(-10, 0)
        ),
        QuoteCurrency::new(-100, 0)
    );
    assert_eq!(
        QuoteCurrency::pnl(
            QuoteCurrency::new(100, 0),
            QuoteCurrency::new(90, 0),
            BaseCurrency::new(10, 0)
        ),
        QuoteCurrency::new(-100, 0)
    );
    assert_eq!(
        QuoteCurrency::pnl(
            QuoteCurrency::new(100, 0),
            QuoteCurrency::new(90, 0),
            BaseCurrency::new(-10, 0)
        ),
        QuoteCurrency::new(100, 0)
    );
}
