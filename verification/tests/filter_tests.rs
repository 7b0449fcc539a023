use lfest::currency::{BaseCurrency, Fraction, QuoteCurrency};
use lfest::errors::{ConfigError, FilterError};
use lfest::price_filter::PriceFilter;
use lfest::quantity_filter::QuantityFilter;

#[test]
fn quantity_filter() {
    let filter = QuantityFilter::new(
        Some(BaseCurrency::new(10, 0)),
        Some(BaseCurrency::new(1000, 0)),
        BaseCurrency::new(1, 0),
    )
    .unwrap();

    assert_eq!(
        filter.validate_order_quantity(BaseCurrency::new(0, 0)),
        Err(FilterError::QuantityTooLow)
    );

    filter
        .validate_order_quantity(BaseCurrency::new(50, 0))
        .unwrap();

    assert_eq!(
        filter.validate_order_quantity(BaseCurrency::new(5, 0)),
        Err(FilterError::QuantityTooLow)
    );

    assert_eq!(
        filter.validate_order_quantity(BaseCurrency::new(5000, 0)),
        Err(FilterError::QuantityTooHigh)
    );

    assert_eq!(
        filter.validate_order_quantity(BaseCurrency::new(505, 1)),
        Err(FilterError::InvalidQuantityStepSize)
    );
}

#[test]
fn quantity_filter_2() {
    let filter = QuantityFilter::new(None, None, BaseCurrency::new(1, 0)).unwrap();
    assert_eq!(
        filter.validate_order_quantity(BaseCurrency::new(0, 0)),
        Err(FilterError::QuantityTooLow)
    );
    assert_eq!(
        filter.validate_order_quantity(BaseCurrency::new(5, 1)),
        Err(FilterError::InvalidQuantityStepSize)
    );
}

#[test]
fn quantity_filter_config_errors() {
    assert_eq!(
        QuantityFilter::new(None, None, BaseCurrency::new(0, 0)),
        Err(ConfigError::InvalidTickSize)
    );
    assert_eq!(
        QuantityFilter::new(
            Some(BaseCurrency::new(5, 1)),
            None,
            BaseCurrency::new(1, 0)
        ),
        Err(ConfigError::InvalidMinQuantity)
    );
}

#[test]
fn price_filter_validations() {
    let filter = PriceFilter::new(
        Some(QuoteCurrency::new(1, 0)),
        Some(QuoteCurrency::new(1000, 0)),
        QuoteCurrency::new(1, 1),
        Fraction::new(2, 1),
        Fraction::new(2, 1),
    )
    .unwrap();

    // A price exactly on the tick grid passes; one off by a fraction of a
    // tick is rejected.
    let mid = QuoteCurrency::new(100, 0);
    assert_eq!(filter.validate_limit_price(QuoteCurrency::new(1001, 1), mid), Ok(()));
    assert_eq!(
        filter.validate_limit_price(QuoteCurrency::new(10001, 2), mid),
        Err(FilterError::InvalidTickSize)
    );
    assert_eq!(
        filter.validate_limit_price(QuoteCurrency::new(5, 1), mid),
        Err(FilterError::PriceTooLow)
    );
    assert_eq!(
        filter.validate_limit_price(QuoteCurrency::new(1001, 0), mid),
        Err(FilterError::PriceTooHigh)
    );
    // 20% deviation bound around a mid of 100: 130 is too far.
    assert_eq!(
        filter.validate_limit_price(QuoteCurrency::new(130, 0), mid),
        Err(FilterError::PriceTooFarFromMid)
    );
}

#[test]
fn price_filter_mark_deviation() {
    let filter = PriceFilter::new(
        None,
        None,
        QuoteCurrency::new(1, 1),
        Fraction::new(2, 0),
        Fraction::new(1, 1),
    )
    .unwrap();
    let mid = QuoteCurrency::new(100, 0);
    assert_eq!(
        filter.validate_limit_price(QuoteCurrency::new(130, 0), mid),
        Err(FilterError::PriceTooFarFromMark)
    );
}

#[test]
fn price_filter_config_errors() {
    assert_eq!(
        PriceFilter::new(
            None,
            None,
            QuoteCurrency::new(0, 0),
            Fraction::new(2, 1),
            Fraction::new(2, 1)
        ),
        Err(ConfigError::InvalidTickSize)
    );
    assert_eq!(
        PriceFilter::new(
            Some(QuoteCurrency::new(5, 1)),
            None,
            QuoteCurrency::new(1, 0),
            Fraction::new(2, 1),
            Fraction::new(2, 1)
        ),
        Err(ConfigError::InvalidMinPrice)
    );
    assert_eq!(
        PriceFilter::new(
            Some(QuoteCurrency::new(10, 0)),
            Some(QuoteCurrency::new(5, 0)),
            QuoteCurrency::new(1, 0),
            Fraction::new(2, 1),
            Fraction::new(2, 1)
        ),
        Err(ConfigError::InvalidMaxPrice)
    );
}
