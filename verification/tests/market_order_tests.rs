use lfest::accounting::UserBalances;
use lfest::config::{Config, ContractSpecification};
use lfest::currency::{BaseCurrency, Fee, Fraction, QuoteCurrency};
use lfest::errors::{Error, RiskError};
use lfest::exchange::Exchange;
use lfest::market_order::MarketOrder;
use lfest::market_update::MarketUpdate;
use lfest::position::{Position, PositionInner};
use lfest::price_filter::PriceFilter;
use lfest::quantity_filter::QuantityFilter;
use lfest::side::Side;

fn mock_exchange_linear() -> Exchange {
    let price_filter = PriceFilter::new(
        None,
        None,
        QuoteCurrency::new(1, 1),
        Fraction::new(1000, 0),
        Fraction::new(1000, 0),
    )
    .unwrap();
    let quantity_filter =
        QuantityFilter::new(None, None, BaseCurrency::new(1, 4)).unwrap();
    let contract_spec = ContractSpecification::new(
        Fraction::new(1, 0),
        price_filter,
        quantity_filter,
        Fee::new(2, 4),
        Fee::new(6, 4),
    )
    .unwrap();
    let config = Config::new(QuoteCurrency::new(1000, 0), 100, contract_spec, 3600).unwrap();
    Exchange::new(config)
}

fn bba(bid: i128, ask: i128) -> MarketUpdate {
    MarketUpdate::Bba {
        bid: QuoteCurrency::new(bid, 0),
        ask: QuoteCurrency::new(ask, 0),
    }
}

#[test]
fn submit_market_buy_order_reject() {
    let mut exchange = mock_exchange_linear();
    assert_eq!(exchange.update_state(0, bba(99, 100)).unwrap(), vec![]);

    let order = MarketOrder::new(Side::Buy, BaseCurrency::new(10, 0)).unwrap();
    assert_eq!(
        exchange.submit_market_order(order),
        Err(Error::RiskError(RiskError::NotEnoughAvailableBalance))
    );
}

#[test]
fn submit_market_buy_order_no_position() {
    let mut exchange = mock_exchange_linear();
    assert_eq!(exchange.update_state(0, bba(100, 101)).unwrap(), vec![]);

    let order = MarketOrder::new(Side::Buy, BaseCurrency::new(5, 0)).unwrap();
    exchange.submit_market_order(order).unwrap();

    // Make sure it executed immediately, at the ask.
    assert_eq!(
        exchange.position(),
        &Position::Long(PositionInner {
            quantity: BaseCurrency::new(5, 0),
            entry_price: QuoteCurrency::new(101, 0),
        })
    );
    assert_eq!(
        exchange.user_balances(),
        UserBalances {
            // 495 less the taker fee of 0.303.
            available_wallet_balance: QuoteCurrency::new(494_697, 3),
            position_margin: QuoteCurrency::new(505, 0),
            order_margin: QuoteCurrency::new(0, 0),
        }
    );
}

#[test]
fn submit_market_buy_order_with_long_position() {
    let mut exchange = mock_exchange_linear();
    assert_eq!(exchange.update_state(0, bba(99, 100)).unwrap(), vec![]);

    // First enter a long position.
    let order = MarketOrder::new(Side::Buy, BaseCurrency::new(5, 0)).unwrap();
    exchange.submit_market_order(order).unwrap();

    // Buy again.
    let order = MarketOrder::new(Side::Buy, BaseCurrency::new(4, 0)).unwrap();
    exchange.submit_market_order(order).unwrap();

    assert_eq!(
        exchange.position(),
        &Position::Long(PositionInner {
            quantity: BaseCurrency::new(9, 0),
            entry_price: QuoteCurrency::new(100, 0),
        })
    );
    assert_eq!(
        exchange.user_balances(),
        UserBalances {
            // 100 less the two taker fees of 0.3 and 0.24.
            available_wallet_balance: QuoteCurrency::new(99_46, 2),
            position_margin: QuoteCurrency::new(900, 0),
            order_margin: QuoteCurrency::new(0, 0),
        }
    );
}

#[test]
fn submit_market_buy_order_with_short_position() {
    let mut exchange = mock_exchange_linear();
    assert_eq!(exchange.update_state(0, bba(100, 101)).unwrap(), vec![]);

    // First enter a short position.
    let order = MarketOrder::new(Side::Sell, BaseCurrency::new(9, 0)).unwrap();
    exchange.submit_market_order(order).unwrap();

    // Now close the position with a buy order.
    let order = MarketOrder::new(Side::Buy, BaseCurrency::new(9, 0)).unwrap();
    exchange.submit_market_order(order).unwrap();

    assert_eq!(exchange.position(), &Position::Neutral);
    assert_eq!(
        exchange.user_balances(),
        UserBalances {
            // 1000 less the fees of 0.54 and 0.5454, less the spread loss of 9.
            available_wallet_balance: QuoteCurrency::new(989_9146, 4),
            position_margin: QuoteCurrency::new(0, 0),
            order_margin: QuoteCurrency::new(0, 0),
        }
    );
}

#[test]
fn submit_market_buy_order_turnaround_short() {
    let mut exchange = mock_exchange_linear();
    assert_eq!(exchange.update_state(0, bba(99, 100)).unwrap(), vec![]);

    // First enter a short position.
    let order = MarketOrder::new(Side::Sell, BaseCurrency::new(9, 0)).unwrap();
    exchange.submit_market_order(order).unwrap();

    // Close the entire position and buy some more.
    let order = MarketOrder::new(Side::Buy, BaseCurrency::new(18, 0)).unwrap();
    exchange.submit_market_order(order).unwrap();
    assert_eq!(
        exchange.position(),
        &Position::Long(PositionInner {
            quantity: BaseCurrency::new(9, 0),
            entry_price: QuoteCurrency::new(100, 0),
        })
    );
    assert_eq!(
        exchange.user_balances(),
        UserBalances {
            // 100 less the fees of 0.5346 and 1.08, less the spread loss of 9.
            available_wallet_balance: QuoteCurrency::new(89_3854, 4),
            position_margin: QuoteCurrency::new(900, 0),
            order_margin: QuoteCurrency::new(0, 0),
        }
    );
}

#[test]
fn market_buy_then_sell_at_same_price() {
    // A round trip: buy at the ask, sell after the bid moved to that same
    // price.  The ledger changes only by the two taker fees.
    let mut exchange = mock_exchange_linear();
    assert_eq!(exchange.update_state(0, bba(99, 100)).unwrap(), vec![]);

    let order = MarketOrder::new(Side::Buy, BaseCurrency::new(5, 0)).unwrap();
    exchange.submit_market_order(order).unwrap();
    assert_eq!(
        exchange.position(),
        &Position::Long(PositionInner {
            quantity: BaseCurrency::new(5, 0),
            entry_price: QuoteCurrency::new(100, 0),
        })
    );
    assert_eq!(
        exchange.user_balances(),
        UserBalances {
            available_wallet_balance: QuoteCurrency::new(499_7, 1),
            position_margin: QuoteCurrency::new(500, 0),
            order_margin: QuoteCurrency::new(0, 0),
        }
    );

    assert_eq!(exchange.update_state(1, bba(100, 101)).unwrap(), vec![]);
    let order = MarketOrder::new(Side::Sell, BaseCurrency::new(5, 0)).unwrap();
    exchange.submit_market_order(order).unwrap();

    assert_eq!(exchange.position(), &Position::Neutral);
    assert_eq!(
        exchange.user_balances(),
        UserBalances {
            // Only the two taker fees of 0.3 each have left the wallet.
            available_wallet_balance: QuoteCurrency::new(999_4, 1),
            position_margin: QuoteCurrency::new(0, 0),
            order_margin: QuoteCurrency::new(0, 0),
        }
    );
}

#[test]
fn market_order_turnaround_short_to_long() {
    // Turnaround: a market buy of twice the short quantity closes the short
    // and opens an equally sized long.
    let mut exchange = mock_exchange_linear();
    assert_eq!(exchange.update_state(0, bba(100, 101)).unwrap(), vec![]);

    let order = MarketOrder::new(Side::Sell, BaseCurrency::new(9, 0)).unwrap();
    exchange.submit_market_order(order).unwrap();
    assert_eq!(
        exchange.position(),
        &Position::Short(PositionInner {
            quantity: BaseCurrency::new(9, 0),
            entry_price: QuoteCurrency::new(100, 0),
        })
    );

    let order = MarketOrder::new(Side::Buy, BaseCurrency::new(18, 0)).unwrap();
    exchange.submit_market_order(order).unwrap();
    assert_eq!(
        exchange.position(),
        &Position::Long(PositionInner {
            quantity: BaseCurrency::new(9, 0),
            entry_price: QuoteCurrency::new(101, 0),
        })
    );
    assert_eq!(
        exchange.user_balances(),
        UserBalances {
            // 1000, less the realized loss of 9, less the taker fees of
            // 0.54 on the opening sell and 1.0908 on the closing buy of 18,
            // less the new position margin of 909.
            available_wallet_balance: QuoteCurrency::new(80_3692, 4),
            position_margin: QuoteCurrency::new(909, 0),
            order_margin: QuoteCurrency::new(0, 0),
        }
    );
}

#[test]
fn market_order_zero_quantity_rejected() {
    assert_eq!(
        MarketOrder::new(Side::Buy, BaseCurrency::new(0, 0)),
        Err(lfest::errors::OrderError::OrderQuantityLTEZero)
    );
}
