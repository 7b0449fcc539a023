use lfest::accounting::UserBalances;
use lfest::config::{Config, ContractSpecification};
use lfest::currency::{BaseCurrency, Fee, Fraction, QuoteCurrency};
use lfest::errors::{Error, OrderError};
use lfest::exchange::Exchange;
use lfest::limit_order::LimitOrder;
use lfest::market_update::{MarketUpdate, Trade};
use lfest::order_update::LimitOrderUpdate;
use lfest::position::{Position, PositionInner};
use lfest::price_filter::PriceFilter;
use lfest::quantity_filter::QuantityFilter;
use lfest::side::Side;

fn mock_exchange_linear() -> Exchange {
    let price_filter = PriceFilter::new(
        None,
        None,
        QuoteCurrency::new(1, 1),
        Fraction::new(1000, 0),
        Fraction::new(1000, 0),
    )
    .unwrap();
    let quantity_filter = QuantityFilter::new(None, None, BaseCurrency::new(1, 4)).unwrap();
    let contract_spec = ContractSpecification::new(
        Fraction::new(1, 0),
        price_filter,
        quantity_filter,
        Fee::new(2, 4),
        Fee::new(6, 4),
    )
    .unwrap();
    let config = Config::new(QuoteCurrency::new(1000, 0), 100, contract_spec, 3600).unwrap();
    Exchange::new(config)
}

fn bba(bid: i128, ask: i128) -> MarketUpdate {
    MarketUpdate::Bba {
        bid: QuoteCurrency::new(bid, 0),
        ask: QuoteCurrency::new(ask, 0),
    }
}

fn taker(price: i128, qty: i128, side: Side) -> MarketUpdate {
    MarketUpdate::Taker(Trade {
        price: QuoteCurrency::new(price, 0),
        quantity: BaseCurrency::new(qty, 0),
        side,
    })
}

#[test]
fn limit_buy_fills_on_adjacent_trade() {
    // Submit a limit buy below the bid; a trade strictly through the limit
    // price fills it in full.
    let mut exchange = mock_exchange_linear();
    assert!(exchange.update_state(0, bba(99, 100)).unwrap().is_empty());

    let order = LimitOrder::new(
        Side::Buy,
        QuoteCurrency::new(98, 0),
        BaseCurrency::new(5, 0),
    )
    .unwrap();
    exchange.submit_limit_order(order).unwrap();
    assert_eq!(
        exchange.user_balances(),
        UserBalances {
            available_wallet_balance: QuoteCurrency::new(510, 0),
            position_margin: QuoteCurrency::new(0, 0),
            order_margin: QuoteCurrency::new(490, 0),
        }
    );

    let updates = exchange.update_state(1, taker(97, 5, Side::Sell)).unwrap();
    assert_eq!(updates.len(), 1);
    match &updates[0] {
        LimitOrderUpdate::FullyFilled(o) => {
            assert_eq!(o.quantity(), BaseCurrency::new(5, 0));
            assert_eq!(o.state().avg_fill_price(), QuoteCurrency::new(98, 0));
        }
        LimitOrderUpdate::PartiallyFilled(_) => panic!("expected a full fill"),
    }

    assert_eq!(
        exchange.position(),
        &Position::Long(PositionInner {
            quantity: BaseCurrency::new(5, 0),
            entry_price: QuoteCurrency::new(98, 0),
        })
    );
    assert_eq!(
        exchange.user_balances(),
        UserBalances {
            // The reserved 490 moved from order margin into position
            // margin; only the maker fee of 0.098 left the wallet.
            available_wallet_balance: QuoteCurrency::new(509_902, 3),
            position_margin: QuoteCurrency::new(490, 0),
            order_margin: QuoteCurrency::new(0, 0),
        }
    );
}

#[test]
fn submit_limit_buy_order_above_ask() {
    let mut exchange = mock_exchange_linear();
    assert!(exchange.update_state(0, bba(99, 100)).unwrap().is_empty());

    let order = LimitOrder::new(
        Side::Buy,
        QuoteCurrency::new(100, 0),
        BaseCurrency::new(9, 0),
    )
    .unwrap();
    assert_eq!(
        exchange.submit_limit_order(order),
        Err(Error::OrderError(OrderError::GoodTillCrossingRejected {
            limit_price: QuoteCurrency::new(100, 0),
            away_market_quotation_price: QuoteCurrency::new(100, 0),
        }))
    );
}

#[test]
fn limit_sell_below_bid_rejected() {
    let mut exchange = mock_exchange_linear();
    assert!(exchange.update_state(0, bba(99, 100)).unwrap().is_empty());

    let order = LimitOrder::new(
        Side::Sell,
        QuoteCurrency::new(99, 0),
        BaseCurrency::new(1, 0),
    )
    .unwrap();
    assert_eq!(
        exchange.submit_limit_order(order),
        Err(Error::OrderError(OrderError::GoodTillCrossingRejected {
            limit_price: QuoteCurrency::new(99, 0),
            away_market_quotation_price: QuoteCurrency::new(99, 0),
        }))
    );
}

#[test]
fn cancel_refunds_order_margin() {
    let mut exchange = mock_exchange_linear();
    assert!(exchange.update_state(0, bba(99, 100)).unwrap().is_empty());

    let order = LimitOrder::new(
        Side::Sell,
        QuoteCurrency::new(101, 0),
        BaseCurrency::new(1, 0),
    )
    .unwrap();
    let pending = exchange.submit_limit_order(order).unwrap();
    assert_eq!(
        exchange.user_balances(),
        UserBalances {
            available_wallet_balance: QuoteCurrency::new(899, 0),
            position_margin: QuoteCurrency::new(0, 0),
            order_margin: QuoteCurrency::new(101, 0),
        }
    );

    exchange.cancel_limit_order(pending.id()).unwrap();
    assert_eq!(
        exchange.user_balances(),
        UserBalances {
            available_wallet_balance: QuoteCurrency::new(1000, 0),
            position_margin: QuoteCurrency::new(0, 0),
            order_margin: QuoteCurrency::new(0, 0),
        }
    );
}

#[test]
fn partial_fill_accumulates() {
    // A resting sell is consumed by two buy trades through its price; the
    // updates come in order, and the position accumulates at the limit
    // price.
    let mut exchange = mock_exchange_linear();
    assert!(exchange.update_state(0, bba(99, 100)).unwrap().is_empty());

    let order = LimitOrder::new(
        Side::Sell,
        QuoteCurrency::new(101, 0),
        BaseCurrency::new(9, 0),
    )
    .unwrap();
    exchange.submit_limit_order(order).unwrap();
    assert_eq!(
        exchange.user_balances(),
        UserBalances {
            available_wallet_balance: QuoteCurrency::new(91, 0),
            position_margin: QuoteCurrency::new(0, 0),
            order_margin: QuoteCurrency::new(909, 0),
        }
    );

    let updates = exchange.update_state(1, taker(102, 4, Side::Buy)).unwrap();
    assert_eq!(updates.len(), 1);
    match &updates[0] {
        LimitOrderUpdate::PartiallyFilled(o) => {
            assert_eq!(o.remaining_quantity(), BaseCurrency::new(5, 0));
        }
        LimitOrderUpdate::FullyFilled(_) => panic!("expected a partial fill"),
    }
    assert_eq!(
        exchange.position(),
        &Position::Short(PositionInner {
            quantity: BaseCurrency::new(4, 0),
            entry_price: QuoteCurrency::new(101, 0),
        })
    );

    let updates = exchange.update_state(2, taker(102, 5, Side::Buy)).unwrap();
    assert_eq!(updates.len(), 1);
    match &updates[0] {
        LimitOrderUpdate::FullyFilled(o) => {
            assert_eq!(o.state().filled_qty(), BaseCurrency::new(9, 0));
            assert_eq!(o.state().avg_fill_price(), QuoteCurrency::new(101, 0));
        }
        LimitOrderUpdate::PartiallyFilled(_) => panic!("expected the final fill"),
    }
    assert_eq!(
        exchange.position(),
        &Position::Short(PositionInner {
            quantity: BaseCurrency::new(9, 0),
            entry_price: QuoteCurrency::new(101, 0),
        })
    );
    assert_eq!(exchange.active_limit_orders().num_active(), 0);
}

#[test]
fn limit_orders_2() {
    let mut exchange = mock_exchange_linear();
    let exec_orders = exchange.update_state(0, bba(100, 101)).unwrap();
    assert!(exec_orders.is_empty());

    let o = LimitOrder::new(
        Side::Sell,
        QuoteCurrency::new(101, 0),
        BaseCurrency::new(75, 2),
    )
    .unwrap();
    exchange.submit_limit_order(o).unwrap();

    let o = LimitOrder::new(
        Side::Buy,
        QuoteCurrency::new(100, 0),
        BaseCurrency::new(5, 1),
    )
    .unwrap();
    exchange.submit_limit_order(o).unwrap();

    let exec_orders = exchange.update_state(1, taker(98, 2, Side::Sell)).unwrap();
    assert_eq!(exec_orders.len(), 1);
    let _ = exchange.update_state(1, bba(98, 99)).unwrap();
}

#[test]
fn submit_limit_buy_order_turnaround_short() {
    // With a short position open, a limit buy of twice its size would turn
    // the position around, but the order margin it demands is not covered
    // by the remaining wallet, so the submission is rejected.
    let mut exchange = mock_exchange_linear();
    assert!(exchange.update_state(0, bba(100, 101)).unwrap().is_empty());

    let order =
        lfest::market_order::MarketOrder::new(Side::Sell, BaseCurrency::new(9, 0)).unwrap();
    exchange.submit_market_order(order).unwrap();

    let order = LimitOrder::new(
        Side::Buy,
        QuoteCurrency::new(100, 0),
        BaseCurrency::new(18, 0),
    )
    .unwrap();
    assert_eq!(
        exchange.submit_limit_order(order),
        Err(Error::RiskError(
            lfest::errors::RiskError::NotEnoughAvailableBalance
        ))
    );
}

#[test]
fn duplicate_user_order_id_rejected() {
    let mut exchange = mock_exchange_linear();
    assert!(exchange.update_state(0, bba(99, 100)).unwrap().is_empty());

    let o1 = LimitOrder::new_with_user_order_id(
        Side::Buy,
        QuoteCurrency::new(90, 0),
        BaseCurrency::new(1, 0),
        7,
    )
    .unwrap();
    exchange.submit_limit_order(o1).unwrap();

    let o2 = LimitOrder::new_with_user_order_id(
        Side::Buy,
        QuoteCurrency::new(91, 0),
        BaseCurrency::new(1, 0),
        7,
    )
    .unwrap();
    assert_eq!(
        exchange.submit_limit_order(o2),
        Err(Error::OrderError(OrderError::DuplicateUserOrderId))
    );
}

#[test]
fn cancel_by_user_id_finds_the_order() {
    let mut exchange = mock_exchange_linear();
    assert!(exchange.update_state(0, bba(99, 100)).unwrap().is_empty());

    let o1 = LimitOrder::new_with_user_order_id(
        Side::Buy,
        QuoteCurrency::new(90, 0),
        BaseCurrency::new(1, 0),
        7,
    )
    .unwrap();
    exchange.submit_limit_order(o1).unwrap();
    let o2 = LimitOrder::new_with_user_order_id(
        Side::Sell,
        QuoteCurrency::new(110, 0),
        BaseCurrency::new(1, 0),
        8,
    )
    .unwrap();
    exchange.submit_limit_order(o2).unwrap();

    let cancelled = exchange.cancel_order_by_user_id(8).unwrap();
    assert_eq!(cancelled.user_order_id(), 8);
    assert_eq!(cancelled.limit_price(), QuoteCurrency::new(110, 0));
    assert_eq!(exchange.active_limit_orders().num_active(), 1);

    assert_eq!(
        exchange.cancel_order_by_user_id(8),
        Err(Error::LookupError(
            lfest::errors::LookupError::UserOrderIdNotFound
        ))
    );
}

#[test]
fn cancel_unknown_order_id() {
    let mut exchange = mock_exchange_linear();
    assert_eq!(
        exchange.cancel_limit_order(42),
        Err(Error::LookupError(
            lfest::errors::LookupError::OrderIdNotFound
        ))
    );
}
