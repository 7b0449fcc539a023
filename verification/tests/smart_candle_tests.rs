use lfest::accounting::UserBalances;
use lfest::config::{Config, ContractSpecification};
use lfest::currency::{BaseCurrency, Fee, Fraction, QuoteCurrency};
use lfest::exchange::Exchange;
use lfest::limit_order::LimitOrder;
use lfest::quantity_filter::QuantityFilter;
use lfest::market_update::{MarketUpdate, Trade};
use lfest::price_filter::PriceFilter;
use lfest::side::Side;
use lfest::smart_candle::{Bba, SmartCandle};

fn filter() -> PriceFilter {
    PriceFilter::new(
        None,
        None,
        QuoteCurrency::new(1, 0),
        Fraction::new(2, 0),
        Fraction::new(5, 1),
    )
    .unwrap()
}

#[test]
fn smart_candle_no_buys() {
    let trades = vec![Trade {
        price: QuoteCurrency::new(100, 0),
        quantity: BaseCurrency::new(1, 0),
        side: Side::Sell,
    }];
    let bba = Bba {
        bid: QuoteCurrency::new(100, 0),
        ask: QuoteCurrency::new(101, 0),
    };
    let smart_candle = SmartCandle::new(&trades, bba, &filter());

    assert_eq!(
        smart_candle,
        SmartCandle {
            aggregate_buy_volume: Vec::new(),
            aggregate_sell_volume: vec![(QuoteCurrency::new(100, 0), BaseCurrency::new(1, 0))],
            bba,
        }
    )
}

#[test]
fn smart_candle_no_sells() {
    let trades = vec![Trade {
        price: QuoteCurrency::new(100, 0),
        quantity: BaseCurrency::new(2, 0),
        side: Side::Buy,
    }];
    let bba = Bba {
        bid: QuoteCurrency::new(100, 0),
        ask: QuoteCurrency::new(101, 0),
    };
    let smart_candle = SmartCandle::new(&trades, bba, &filter());

    assert_eq!(
        smart_candle,
        SmartCandle {
            aggregate_buy_volume: vec![(QuoteCurrency::new(100, 0), BaseCurrency::new(2, 0))],
            aggregate_sell_volume: Vec::new(),
            bba,
        }
    )
}

#[test]
fn smart_candle() {
    let trades = vec![
        Trade {
            price: QuoteCurrency::new(100, 0),
            quantity: BaseCurrency::new(2, 0),
            side: Side::Buy,
        },
        Trade {
            price: QuoteCurrency::new(100, 0),
            quantity: BaseCurrency::new(1, 0),
            side: Side::Sell,
        },
    ];
    let bba = Bba {
        bid: QuoteCurrency::new(100, 0),
        ask: QuoteCurrency::new(101, 0),
    };
    let smart_candle = SmartCandle::new(&trades, bba, &filter());

    assert_eq!(
        smart_candle,
        SmartCandle {
            aggregate_buy_volume: vec![(QuoteCurrency::new(100, 0), BaseCurrency::new(2, 0))],
            aggregate_sell_volume: vec![(QuoteCurrency::new(100, 0), BaseCurrency::new(1, 0))],
            bba,
        }
    )
}

#[test]
fn smart_candle_sorts_levels_by_price() {
    // The constructor must reorder the levels by price; if the sort handed
    // its input back unchanged, the books below would stay in submission
    // order.
    let trades = vec![
        Trade {
            price: QuoteCurrency::new(105, 0),
            quantity: BaseCurrency::new(1, 0),
            side: Side::Buy,
        },
        Trade {
            price: QuoteCurrency::new(103, 0),
            quantity: BaseCurrency::new(2, 0),
            side: Side::Buy,
        },
        Trade {
            price: QuoteCurrency::new(104, 0),
            quantity: BaseCurrency::new(3, 0),
            side: Side::Buy,
        },
    ];
    let bba = Bba {
        bid: QuoteCurrency::new(100, 0),
        ask: QuoteCurrency::new(101, 0),
    };
    let smart_candle = SmartCandle::new(&trades, bba, &filter());
    assert_eq!(
        smart_candle.aggregate_buy_volume,
        vec![
            (QuoteCurrency::new(103, 0), BaseCurrency::new(2, 0)),
            (QuoteCurrency::new(104, 0), BaseCurrency::new(3, 0)),
            (QuoteCurrency::new(105, 0), BaseCurrency::new(1, 0)),
        ]
    );
    // The volume lookups sum strictly through a price.
    assert_eq!(
        smart_candle.buy_volume_above(QuoteCurrency::new(103, 0)),
        BaseCurrency::new(4, 0)
    );
    assert_eq!(
        smart_candle.buy_volume_above(QuoteCurrency::new(105, 0)),
        BaseCurrency::new(0, 0)
    );
}

#[test]
fn smart_candle_fills_resting_order() {
    let price_filter = PriceFilter::new(
        None,
        None,
        QuoteCurrency::new(1, 1),
        Fraction::new(1000, 0),
        Fraction::new(1000, 0),
    )
    .unwrap();
    let quantity_filter = QuantityFilter::new(None, None, BaseCurrency::new(1, 4)).unwrap();
    let contract_spec = ContractSpecification::new(
        Fraction::new(1, 0),
        price_filter,
        quantity_filter,
        Fee::new(2, 4),
        Fee::new(6, 4),
    )
    .unwrap();
    let config = Config::new(QuoteCurrency::new(1000, 0), 100, contract_spec, 3600).unwrap();
    let mut exchange = Exchange::new(config);

    assert!(exchange
        .update_state(
            0,
            MarketUpdate::Bba {
                bid: QuoteCurrency::new(99, 0),
                ask: QuoteCurrency::new(100, 0),
            },
        )
        .unwrap()
        .is_empty());

    let order = LimitOrder::new(
        Side::Buy,
        QuoteCurrency::new(98, 0),
        BaseCurrency::new(5, 0),
    )
    .unwrap();
    exchange.submit_limit_order(order).unwrap();

    // A candle whose sell flow went through 98 fills the resting buy.
    let trades = vec![Trade {
        price: QuoteCurrency::new(97, 0),
        quantity: BaseCurrency::new(5, 0),
        side: Side::Sell,
    }];
    let bba = Bba {
        bid: QuoteCurrency::new(97, 0),
        ask: QuoteCurrency::new(98, 0),
    };
    let candle = SmartCandle::new(&trades, bba, exchange.config().contract_spec().price_filter());
    let updates = exchange
        .update_state(1, MarketUpdate::Smart(candle))
        .unwrap();
    assert_eq!(updates.len(), 1);
    assert_eq!(
        exchange.user_balances(),
        UserBalances {
            available_wallet_balance: QuoteCurrency::new(509_902, 3),
            position_margin: QuoteCurrency::new(490, 0),
            order_margin: QuoteCurrency::new(0, 0),
        }
    );
}
