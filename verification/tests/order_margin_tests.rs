use lfest::currency::{BaseCurrency, Fraction, QuoteCurrency};
use lfest::limit_order::LimitOrder;
use lfest::order_margin::{compute_order_margin, ActiveLimitOrders};
use lfest::order_status::ExchangeOrderMeta;
use lfest::position::{Position, PositionInner};
use lfest::side::Side;

fn pending(
    side: Side,
    limit_price: QuoteCurrency,
    qty: BaseCurrency,
    id: u64,
) -> lfest::limit_order::LimitOrder<lfest::order_status::Pending> {
    let order = LimitOrder::new(side, limit_price, qty).unwrap();
    order.into_pending(ExchangeOrderMeta::new(id, 0))
}

fn margin_one() -> Fraction {
    Fraction::new(1, 0)
}

#[test]
fn account_order_margin_no_position() {
    let mut orders = ActiveLimitOrders::new();
    let position = Position::Neutral;

    assert_eq!(
        compute_order_margin(&orders, &position, margin_one()),
        QuoteCurrency::new(0, 0)
    );

    orders.arr.push(pending(
        Side::Buy,
        QuoteCurrency::new(90, 0),
        BaseCurrency::new(1, 0),
        0,
    ));
    assert_eq!(
        compute_order_margin(&orders, &position, margin_one()),
        QuoteCurrency::new(90, 0)
    );

    orders.arr.push(pending(
        Side::Sell,
        QuoteCurrency::new(100, 0),
        BaseCurrency::new(1, 0),
        1,
    ));
    assert_eq!(
        compute_order_margin(&orders, &position, margin_one()),
        QuoteCurrency::new(100, 0)
    );

    orders.arr.push(pending(
        Side::Sell,
        QuoteCurrency::new(120, 0),
        BaseCurrency::new(1, 0),
        2,
    ));
    assert_eq!(
        compute_order_margin(&orders, &position, margin_one()),
        QuoteCurrency::new(220, 0)
    );
}

#[test]
fn account_order_margin_with_long() {
    let mut orders = ActiveLimitOrders::new();
    let position = Position::Long(PositionInner {
        quantity: BaseCurrency::new(1, 0),
        entry_price: QuoteCurrency::new(100, 0),
    });

    assert_eq!(
        compute_order_margin(&orders, &position, margin_one()),
        QuoteCurrency::new(0, 0)
    );

    orders.arr.push(pending(
        Side::Buy,
        QuoteCurrency::new(90, 0),
        BaseCurrency::new(1, 0),
        0,
    ));
    assert_eq!(
        compute_order_margin(&orders, &position, margin_one()),
        QuoteCurrency::new(90, 0)
    );

    orders.arr.push(pending(
        Side::Sell,
        QuoteCurrency::new(100, 0),
        BaseCurrency::new(1, 0),
        1,
    ));
    assert_eq!(
        compute_order_margin(&orders, &position, margin_one()),
        QuoteCurrency::new(90, 0)
    );

    orders.arr.push(pending(
        Side::Sell,
        QuoteCurrency::new(120, 0),
        BaseCurrency::new(1, 0),
        2,
    ));
    assert_eq!(
        compute_order_margin(&orders, &position, margin_one()),
        QuoteCurrency::new(120, 0)
    );

    orders.arr.push(pending(
        Side::Buy,
        QuoteCurrency::new(95, 0),
        BaseCurrency::new(1, 0),
        3,
    ));
    assert_eq!(
        compute_order_margin(&orders, &position, margin_one()),
        QuoteCurrency::new(185, 0)
    );
}

#[test]
fn account_order_margin_with_short() {
    let mut orders = ActiveLimitOrders::new();
    let position = Position::Short(PositionInner {
        quantity: BaseCurrency::new(1, 0),
        entry_price: QuoteCurrency::new(100, 0),
    });

    assert_eq!(
        compute_order_margin(&orders, &position, margin_one()),
        QuoteCurrency::new(0, 0)
    );

    orders.arr.push(pending(
        Side::Buy,
        QuoteCurrency::new(90, 0),
        BaseCurrency::new(1, 0),
        0,
    ));
    assert_eq!(
        compute_order_margin(&orders, &position, margin_one()),
        QuoteCurrency::new(0, 0)
    );

    orders.arr.push(pending(
        Side::Sell,
        QuoteCurrency::new(100, 0),
        BaseCurrency::new(1, 0),
        1,
    ));
    assert_eq!(
        compute_order_margin(&orders, &position, margin_one()),
        QuoteCurrency::new(100, 0)
    );

    orders.arr.push(pending(
        Side::Sell,
        QuoteCurrency::new(120, 0),
        BaseCurrency::new(1, 0),
        2,
    ));
    assert_eq!(
        compute_order_margin(&orders, &position, margin_one()),
        QuoteCurrency::new(220, 0)
    );

    orders.arr.push(pending(
        Side::Buy,
        QuoteCurrency::new(95, 0),
        BaseCurrency::new(1, 0),
        3,
    ));
    assert_eq!(
        compute_order_margin(&orders, &position, margin_one()),
        QuoteCurrency::new(220, 0)
    );
}
