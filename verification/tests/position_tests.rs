use lfest::currency::{BaseCurrency, QuoteCurrency};
use lfest::position::Position;
use lfest::position::PositionInner;

#[test]
fn position_inner_new_avg_entry_price() {
    let pos = PositionInner {
        quantity: BaseCurrency::new(1, 1),
        entry_price: QuoteCurrency::new(100, 0),
    };
    assert_eq!(
        pos.new_avg_entry_price(BaseCurrency::new(1, 1), QuoteCurrency::new(50, 0)),
        QuoteCurrency::new(75, 0)
    );
    assert_eq!(
        pos.new_avg_entry_price(BaseCurrency::new(1, 1), QuoteCurrency::new(90, 0)),
        QuoteCurrency::new(95, 0)
    );
    assert_eq!(
        pos.new_avg_entry_price(BaseCurrency::new(1, 1), QuoteCurrency::new(150, 0)),
        QuoteCurrency::new(125, 0)
    );
    assert_eq!(
        pos.new_avg_entry_price(BaseCurrency::new(3, 1), QuoteCurrency::new(200, 0)),
        QuoteCurrency::new(175, 0)
    );
}

#[test]
fn position_position_inner_new_avg_entry_price() {
    let pos = PositionInner {
        quantity: BaseCurrency::new(1, 1),
        entry_price: QuoteCurrency::new(100, 0),
    };
    assert_eq!(
        pos.new_avg_entry_price(BaseCurrency::new(1, 1), QuoteCurrency::new(50, 0)),
        QuoteCurrency::new(75, 0)
    );
    assert_eq!(
        pos.new_avg_entry_price(BaseCurrency::new(1, 1), QuoteCurrency::new(90, 0)),
        QuoteCurrency::new(95, 0)
    );
    assert_eq!(
        pos.new_avg_entry_price(BaseCurrency::new(1, 1), QuoteCurrency::new(150, 0)),
        QuoteCurrency::new(125, 0)
    );
    assert_eq!(
        pos.new_avg_entry_price(BaseCurrency::new(3, 1), QuoteCurrency::new(200, 0)),
        QuoteCurrency::new(175, 0)
    );
}

#[test]
fn position_unrealized_pnl_directions() {
    let long = Position::Long(PositionInner {
        quantity: BaseCurrency::new(5, 0),
        entry_price: QuoteCurrency::new(100, 0),
    });
    // A long marks against the bid.
    assert_eq!(
        long.unrealized_pnl(QuoteCurrency::new(110, 0), QuoteCurrency::new(111, 0)),
        QuoteCurrency::new(50, 0)
    );
    let short = Position::Short(PositionInner {
        quantity: BaseCurrency::new(5, 0),
        entry_price: QuoteCurrency::new(100, 0),
    });
    // A short marks against the ask and profits when it falls.
    assert_eq!(
        short.unrealized_pnl(QuoteCurrency::new(89, 0), QuoteCurrency::new(90, 0)),
        QuoteCurrency::new(50, 0)
    );
}
