use lfest::accounting::UserBalances;
use lfest::config::{Config, ContractSpecification};
use lfest::currency::{BaseCurrency, Fee, Fraction, QuoteCurrency};
use lfest::errors::{ConfigError, Error, MarketUpdateError, RiskError};
use lfest::exchange::Exchange;
use lfest::limit_order::LimitOrder;
use lfest::market_order::MarketOrder;
use lfest::market_update::MarketUpdate;
use lfest::price_filter::PriceFilter;
use lfest::quantity_filter::QuantityFilter;
use lfest::side::Side;

fn contract_spec(imr: Fraction) -> ContractSpecification {
    let price_filter = PriceFilter::new(
        None,
        None,
        QuoteCurrency::new(1, 1),
        Fraction::new(1000, 0),
        Fraction::new(1000, 0),
    )
    .unwrap();
    let quantity_filter = QuantityFilter::new(None, None, BaseCurrency::new(1, 4)).unwrap();
    ContractSpecification::new(imr, price_filter, quantity_filter, Fee::new(2, 4), Fee::new(6, 4))
        .unwrap()
}

fn mock_exchange(max_open: u64, imr: Fraction) -> Exchange {
    let config =
        Config::new(QuoteCurrency::new(1000, 0), max_open, contract_spec(imr), 3600).unwrap();
    Exchange::new(config)
}

fn bba(bid: i128, ask: i128) -> MarketUpdate {
    MarketUpdate::Bba {
        bid: QuoteCurrency::new(bid, 0),
        ask: QuoteCurrency::new(ask, 0),
    }
}

#[test]
fn config_rejects_bad_inputs() {
    assert_eq!(
        Config::new(
            QuoteCurrency::new(0, 0),
            100,
            contract_spec(Fraction::new(1, 0)),
            3600
        ),
        Err(ConfigError::InvalidStartingBalance)
    );
    let price_filter = PriceFilter::new(
        None,
        None,
        QuoteCurrency::new(1, 1),
        Fraction::new(1000, 0),
        Fraction::new(1000, 0),
    )
    .unwrap();
    let quantity_filter = QuantityFilter::new(None, None, BaseCurrency::new(1, 4)).unwrap();
    assert_eq!(
        ContractSpecification::new(
            Fraction::new(0, 0),
            price_filter,
            quantity_filter,
            Fee::new(2, 4),
            Fee::new(6, 4)
        ),
        Err(ConfigError::InvalidInitMarginReq)
    );
}

#[test]
fn non_monotonic_timestamp_rejected() {
    let mut exchange = mock_exchange(100, Fraction::new(1, 0));
    assert!(exchange.update_state(10, bba(99, 100)).unwrap().is_empty());
    assert_eq!(
        exchange.update_state(9, bba(99, 100)),
        Err(Error::MarketUpdateError(
            MarketUpdateError::NonMonotonicTimestamp
        ))
    );
    // The same timestamp is fine.
    assert!(exchange.update_state(10, bba(99, 100)).unwrap().is_empty());
}

#[test]
fn bid_greater_than_ask_rejected() {
    let mut exchange = mock_exchange(100, Fraction::new(1, 0));
    assert_eq!(
        exchange.update_state(0, bba(100, 100)),
        Err(Error::MarketUpdateError(
            MarketUpdateError::BidGreaterThanAsk
        ))
    );
}

#[test]
fn exceeds_max_open_orders() {
    let mut exchange = mock_exchange(2, Fraction::new(1, 0));
    assert!(exchange.update_state(0, bba(99, 100)).unwrap().is_empty());
    for i in 0..2u64 {
        let order = LimitOrder::new(
            Side::Buy,
            QuoteCurrency::new(90 + i as i128, 0),
            BaseCurrency::new(1, 0),
        )
        .unwrap();
        exchange.submit_limit_order(order).unwrap();
    }
    let order = LimitOrder::new(
        Side::Buy,
        QuoteCurrency::new(95, 0),
        BaseCurrency::new(1, 0),
    )
    .unwrap();
    assert_eq!(
        exchange.submit_limit_order(order),
        Err(Error::RiskError(RiskError::ExceedsMaxOpenOrders))
    );
}

#[test]
fn maintenance_margin_violation_surfaces() {
    // With a leverage of two, a long position loses its whole isolated
    // margin once the bid falls far enough; the update then surfaces the
    // maintenance margin error instead of matching.
    let mut exchange = mock_exchange(100, Fraction::new(5, 1));
    assert!(exchange.update_state(0, bba(99, 100)).unwrap().is_empty());
    let order = MarketOrder::new(Side::Buy, BaseCurrency::new(5, 0)).unwrap();
    exchange.submit_market_order(order).unwrap();
    // Margin is 250; at a bid of 40 the paper loss is 300.
    assert_eq!(
        exchange.update_state(1, bba(40, 41)),
        Err(Error::RiskError(RiskError::MaintenanceMarginViolated))
    );
}

#[test]
fn order_ids_strictly_increase() {
    let mut exchange = mock_exchange(100, Fraction::new(1, 0));
    assert!(exchange.update_state(0, bba(99, 100)).unwrap().is_empty());

    let o1 = exchange
        .submit_limit_order(
            LimitOrder::new(
                Side::Buy,
                QuoteCurrency::new(90, 0),
                BaseCurrency::new(1, 0),
            )
            .unwrap(),
        )
        .unwrap();
    // A rejected submission still consumes an id.
    let rejected = exchange.submit_limit_order(
        LimitOrder::new(
            Side::Buy,
            QuoteCurrency::new(100, 0),
            BaseCurrency::new(1, 0),
        )
        .unwrap(),
    );
    assert!(rejected.is_err());
    let o2 = exchange
        .submit_limit_order(
            LimitOrder::new(
                Side::Buy,
                QuoteCurrency::new(91, 0),
                BaseCurrency::new(1, 0),
            )
            .unwrap(),
        )
        .unwrap();
    assert!(o2.id() > o1.id());
    assert_eq!(o1.id(), 0);
    assert_eq!(o2.id(), 2);
}

#[test]
fn ledger_sum_is_conserved() {
    // Across market orders, limit orders, fills and cancels, the five
    // account balances always sum to the starting balance.
    let mut exchange = mock_exchange(100, Fraction::new(1, 0));
    let start = QuoteCurrency::new(1000, 0);

    let sum_of = |b: UserBalances, fees_and_treasury: QuoteCurrency| {
        // wallet + position margin + order margin + (fee + treasury)
        QuoteCurrency {
            m: b.available_wallet_balance.m + b.position_margin.m + b.order_margin.m
                + fees_and_treasury.m,
        }
    };

    assert!(exchange.update_state(0, bba(99, 100)).unwrap().is_empty());
    exchange
        .submit_market_order(MarketOrder::new(Side::Buy, BaseCurrency::new(5, 0)).unwrap())
        .unwrap();
    // Taker fee of 0.3 sits in the exchange fee account.
    assert_eq!(
        sum_of(exchange.user_balances(), QuoteCurrency::new(3, 1)),
        start
    );

    exchange
        .submit_limit_order(
            LimitOrder::new(
                Side::Sell,
                QuoteCurrency::new(105, 0),
                BaseCurrency::new(5, 0),
            )
            .unwrap(),
        )
        .unwrap();
    assert_eq!(
        sum_of(exchange.user_balances(), QuoteCurrency::new(3, 1)),
        start
    );

    // The sell fills; the maker fee of 0.105 joins the fee account, and the
    // realized profit of 25 is paid by the treasury.
    let updates = exchange
        .update_state(
            1,
            MarketUpdate::Taker(lfest::market_update::Trade {
                price: QuoteCurrency::new(106, 0),
                quantity: BaseCurrency::new(5, 0),
                side: Side::Buy,
            }),
        )
        .unwrap();
    assert_eq!(updates.len(), 1);
    let fees_and_treasury = QuoteCurrency {
        m: QuoteCurrency::new(405, 3).m - QuoteCurrency::new(25, 0).m,
    };
    assert_eq!(sum_of(exchange.user_balances(), fees_and_treasury), start);
}

#[test]
fn negative_maker_fee_is_a_rebate() {
    // With a negative maker fee, a filled limit order credits the wallet.
    let price_filter = PriceFilter::new(
        None,
        None,
        QuoteCurrency::new(1, 1),
        Fraction::new(1000, 0),
        Fraction::new(1000, 0),
    )
    .unwrap();
    let quantity_filter = QuantityFilter::new(None, None, BaseCurrency::new(1, 4)).unwrap();
    let contract_spec = ContractSpecification::new(
        Fraction::new(1, 0),
        price_filter,
        quantity_filter,
        Fee::new(-2, 4),
        Fee::new(6, 4),
    )
    .unwrap();
    let config = Config::new(QuoteCurrency::new(1000, 0), 100, contract_spec, 3600).unwrap();
    let mut exchange = Exchange::new(config);

    assert!(exchange.update_state(0, bba(99, 100)).unwrap().is_empty());
    exchange
        .submit_limit_order(
            LimitOrder::new(
                Side::Buy,
                QuoteCurrency::new(98, 0),
                BaseCurrency::new(5, 0),
            )
            .unwrap(),
        )
        .unwrap();
    let updates = exchange
        .update_state(
            1,
            MarketUpdate::Taker(lfest::market_update::Trade {
                price: QuoteCurrency::new(97, 0),
                quantity: BaseCurrency::new(5, 0),
                side: Side::Sell,
            }),
        )
        .unwrap();
    assert_eq!(updates.len(), 1);
    assert_eq!(
        exchange.user_balances(),
        UserBalances {
            // The wallet gained the 0.098 rebate.
            available_wallet_balance: QuoteCurrency::new(510_098, 3),
            position_margin: QuoteCurrency::new(490, 0),
            order_margin: QuoteCurrency::new(0, 0),
        }
    );
}

#[test]
fn account_view_reports_the_books() {
    let mut exchange = mock_exchange(100, Fraction::new(1, 0));
    assert!(exchange.update_state(0, bba(99, 100)).unwrap().is_empty());
    exchange
        .submit_limit_order(
            LimitOrder::new(
                Side::Buy,
                QuoteCurrency::new(90, 0),
                BaseCurrency::new(1, 0),
            )
            .unwrap(),
        )
        .unwrap();
    let account = exchange.account();
    assert_eq!(account.active_limit_orders.num_active(), 1);
    assert_eq!(account.position, &lfest::position::Position::Neutral);
    assert_eq!(account.balances.order_margin, QuoteCurrency::new(90, 0));
}
