//! The exchange core: it orchestrates market updates, order submission and
//! cancellation, and keeps the account's books straight.
//!
//! The well-formedness predicate [`Exchange::wf`] carries the global
//! invariants of the system: the ledger's balances sum to the starting
//! wallet balance, the position-margin account holds exactly the margin of
//! the open position, the order-margin account holds exactly the margin the
//! resting limit orders require, exchange order ids strictly increase, and
//! the user-order-id index mirrors the resting orders.  Every public
//! operation preserves it.

use vstd::prelude::*;
use crate::accounting::{
    LedgerAccount, Transaction, TransactionAccounting, UserBalances, LEDGER_POSTS_LIMIT,
};
use crate::config::Config;
use crate::currency::{
    lemma_abs_mul_le, spec_mul_scaled, AMOUNT_CAP, BALANCE_LIMIT, BaseCurrency, POS_QTY_LIMIT,
    QuoteCurrency, SCALE, UNIT_LIMIT,
};
use crate::errors::{Error, LookupError, OrderError, RiskError};
use crate::limit_order::LimitOrder;
use crate::market_order::MarketOrder;
use crate::market_state::MarketState;
use crate::market_update::MarketUpdate;
use crate::order_margin::{
    compute_order_margin, lemma_order_margin_in_cap, spec_order_margin, ActiveLimitOrders,
};
use crate::order_status::{ExchangeOrderMeta, Filled, NewOrder, Pending};
use crate::order_update::LimitOrderUpdate;
use crate::position::Position;
use crate::side::Side;
use crate::user_id_index::{user_id_index_contents, UserIdIndex};

verus! {

/// Relevant information about the traders account.
pub struct Account<'a> {
    /// The active limit orders of the account.
    pub active_limit_orders: &'a ActiveLimitOrders,
    /// The current position of the account.
    pub position: &'a Position,
    /// The ledger balances of the account.
    pub balances: UserBalances,
}

/// The main leveraged futures exchange for simulated trading.
pub struct Exchange {
    /// The exchange configuration.
    pub config: Config,
    /// The current state of the simulated market.
    pub market_state: MarketState,
    /// The id the next accepted order will get.
    pub next_order_id: u64,
    /// Does the accounting: all funds move between its five accounts.
    pub transaction_accounting: TransactionAccounting,
    /// The current position of the user.
    pub position: Position,
    /// The active limit orders of the user, sorted by ascending order id.
    pub active_limit_orders: ActiveLimitOrders,
    /// Maps the non-default user order ids of active orders to order ids.
    pub lookup_order_nonce_from_user_order_id: UserIdIndex,
}

impl Exchange {
    /// The configured initial margin requirement, as a mantissa.
    pub open spec fn spec_imr(self) -> int {
        self.config.contract_spec.init_margin_req@
    }

    /// The net balance of the given ledger account.
    pub open spec fn spec_balance(self, account: LedgerAccount) -> int {
        self.transaction_accounting.spec_balance(account)
    }

    /// The user-order-id index mirrors the resting orders: every active
    /// order with a non-default user id is indexed under it, everything in
    /// the index points back at an active order, and a non-default user id
    /// is attached to at most one active order.
    pub open spec fn user_index_wf(self) -> bool {
        let orders = self.active_limit_orders@;
        let contents = user_id_index_contents(self.lookup_order_nonce_from_user_order_id);
        &&& forall|i: int|
            0 <= i < orders.len() && (#[trigger] orders[i]).user_order_id != 0 ==> {
                &&& contents.dom().contains(orders[i].user_order_id)
                &&& contents[orders[i].user_order_id] == orders[i].state.meta.id
            }
        &&& forall|uid: u64|
            #[trigger] contents.dom().contains(uid) ==> uid != 0 && exists|i: int|
                0 <= i < orders.len() && (#[trigger] orders[i]).user_order_id == uid
        &&& forall|i: int, j: int|
            0 <= i < j < orders.len() ==> orders[i].user_order_id == 0 || orders[i].user_order_id
                != orders[j].user_order_id
    }

    /// The global invariant of the exchange; holds after construction and
    /// is preserved by every public operation.
    pub open spec fn wf(self) -> bool {
        let orders = self.active_limit_orders@;
        &&& self.config.wf()
        &&& self.market_state.wf()
        &&& self.position.wf()
        &&& self.active_limit_orders.wf()
        &&& orders.len() <= self.config.max_num_open_orders
        &&& forall|i: int|
            0 <= i < orders.len() ==> (#[trigger] orders[i]).state.meta.id < self.next_order_id
        &&& self.user_index_wf()
        &&& self.spec_balance(LedgerAccount::UserPositionMargin)
            == self.position.spec_position_margin(self.spec_imr())
        &&& self.spec_balance(LedgerAccount::UserOrderMargin) == spec_order_margin(
            orders,
            self.position,
            self.spec_imr(),
        )
        &&& self.transaction_accounting.spec_balance_sum() == self.config.starting_wallet_balance@
    }

    /// The numeric headroom every public operation asks for: the ledger's
    /// posts and the position quantity leave room for one more operation's
    /// worth of arithmetic.
    pub open spec fn in_bounds(self) -> bool {
        &&& self.transaction_accounting.spec_posts_bounded(BALANCE_LIMIT as int)
        &&& self.position.spec_qty() <= POS_QTY_LIMIT / 2
        &&& self.market_state.step < u64::MAX
        &&& self.next_order_id < u64::MAX
    }

    /// Create a new exchange with the desired configuration.
    pub fn new(config: Config) -> (r: Self)
        requires
            config.wf(),
        ensures
            r.wf(),
            r.in_bounds(),
            r.config == config,
            r.position == Position::Neutral,
            r.active_limit_orders@ =~= Seq::<LimitOrder<Pending>>::empty(),
            r.next_order_id == 0,
            r.market_state == (MarketState {
                bid: QuoteCurrency { m: 0 },
                ask: QuoteCurrency { m: 0 },
                current_ts_ns: 0i64,
                step: 0u64,
            }),
            r.spec_balance(LedgerAccount::UserWallet) == config.starting_wallet_balance@,
            r.spec_balance(LedgerAccount::UserPositionMargin) == 0,
            r.spec_balance(LedgerAccount::UserOrderMargin) == 0,
            r.spec_balance(LedgerAccount::ExchangeFee) == 0,
            r.spec_balance(LedgerAccount::Treasury) == 0,
    {
        let accounting = TransactionAccounting::new(config.starting_wallet_balance);
        let r = Exchange {
            config,
            market_state: MarketState::new(),
            next_order_id: 0,
            transaction_accounting: accounting,
            position: Position::Neutral,
            active_limit_orders: ActiveLimitOrders::new(),
            lookup_order_nonce_from_user_order_id: UserIdIndex::new(),
        };
        proof {
            crate::position::lemma_zero_margin(0, r.spec_imr());
            assert(spec_order_margin(
                r.active_limit_orders@,
                Position::Neutral,
                r.spec_imr(),
            ) == 0) by {
                assert(crate::order_margin::spec_buy_notional_sum(r.active_limit_orders@) == 0);
                assert(crate::order_margin::spec_sell_notional_sum(r.active_limit_orders@) == 0);
                assert(spec_mul_scaled(0, r.spec_imr()) == 0) by (nonlinear_arith);
            }
        }
        r
    }

    /// The exchange configuration.
    pub fn config(&self) -> (r: &Config)
        ensures
            r == self.config,
    {
        &self.config
    }

    /// The current state of the simulated market.
    pub fn market_state(&self) -> (r: &MarketState)
        ensures
            r == self.market_state,
    {
        &self.market_state
    }

    /// The current position of the user.
    pub fn position(&self) -> (r: &Position)
        ensures
            r == self.position,
    {
        &self.position
    }

    /// The active limit orders of the user, ascending by order id.
    pub fn active_limit_orders(&self) -> (r: &ActiveLimitOrders)
        ensures
            r == self.active_limit_orders,
    {
        &self.active_limit_orders
    }

    /// Get information about the account: its resting orders, its position
    /// and its ledger balances.
    pub fn account(&self) -> (r: Account)
        requires
            self.transaction_accounting.spec_posts_bounded(LEDGER_POSTS_LIMIT as int),
        ensures
            r.active_limit_orders == &self.active_limit_orders,
            r.position == &self.position,
            r.balances.available_wallet_balance@ == self.spec_balance(LedgerAccount::UserWallet),
            r.balances.position_margin@ == self.spec_balance(LedgerAccount::UserPositionMargin),
            r.balances.order_margin@ == self.spec_balance(LedgerAccount::UserOrderMargin),
    {
        Account {
            active_limit_orders: &self.active_limit_orders,
            position: &self.position,
            balances: self.user_balances(),
        }
    }

    /// Get the balances of the user account.
    pub fn user_balances(&self) -> (r: UserBalances)
        requires
            self.transaction_accounting.spec_posts_bounded(LEDGER_POSTS_LIMIT as int),
        ensures
            r.available_wallet_balance@ == self.spec_balance(LedgerAccount::UserWallet),
            r.position_margin@ == self.spec_balance(LedgerAccount::UserPositionMargin),
            r.order_margin@ == self.spec_balance(LedgerAccount::UserOrderMargin),
    {
        UserBalances {
            available_wallet_balance: self.transaction_accounting.margin_balance_of(
                LedgerAccount::UserWallet,
            ),
            position_margin: self.transaction_accounting.margin_balance_of(
                LedgerAccount::UserPositionMargin,
            ),
            order_margin: self.transaction_accounting.margin_balance_of(
                LedgerAccount::UserOrderMargin,
            ),
        }
    }
}

impl Exchange {
    /// Bring the order-margin account to exactly the margin the current
    /// resting orders require, moving the difference from or to the wallet.
    fn retarget_order_margin(&mut self)
        requires
            old(self).config.wf(),
            old(self).active_limit_orders.wf(),
            old(self).position.wf(),
            old(self).position.spec_qty() <= POS_QTY_LIMIT,
            old(self).transaction_accounting.spec_posts_bounded(2 * LEDGER_POSTS_LIMIT as int),
        ensures
            final(self).config == old(self).config,
            final(self).market_state == old(self).market_state,
            final(self).next_order_id == old(self).next_order_id,
            final(self).position == old(self).position,
            final(self).active_limit_orders == old(self).active_limit_orders,
            final(self).lookup_order_nonce_from_user_order_id == old(self).lookup_order_nonce_from_user_order_id,
            final(self).spec_balance(LedgerAccount::UserOrderMargin) == spec_order_margin(
                old(self).active_limit_orders@,
                old(self).position,
                old(self).spec_imr(),
            ),
            final(self).spec_balance(LedgerAccount::UserWallet) == old(self).spec_balance(
                LedgerAccount::UserWallet,
            ) + old(self).spec_balance(LedgerAccount::UserOrderMargin) - final(self).spec_balance(
                LedgerAccount::UserOrderMargin,
            ),
            final(self).spec_balance(LedgerAccount::UserPositionMargin) == old(self).spec_balance(
                LedgerAccount::UserPositionMargin,
            ),
            final(self).spec_balance(LedgerAccount::ExchangeFee) == old(self).spec_balance(
                LedgerAccount::ExchangeFee,
            ),
            final(self).spec_balance(LedgerAccount::Treasury) == old(self).spec_balance(
                LedgerAccount::Treasury,
            ),
            final(self).transaction_accounting.spec_balance_sum() == old(self).transaction_accounting.spec_balance_sum(),
            forall|b: int|
                old(self).transaction_accounting.spec_posts_bounded(b) ==> final(self).transaction_accounting.spec_posts_bounded(
                    b + vstd::math::abs(old(self).spec_balance(LedgerAccount::UserOrderMargin))
                        + AMOUNT_CAP,
                ),
    {
        let target = compute_order_margin(
            &self.active_limit_orders,
            &self.position,
            self.config.contract_spec.init_margin_req,
        );
        let om_bal = self.transaction_accounting.margin_balance_of(LedgerAccount::UserOrderMargin);
        if target.m > om_bal.m {
            let delta = target.minus(om_bal);
            let transaction = Transaction::new(
                LedgerAccount::UserOrderMargin,
                LedgerAccount::UserWallet,
                delta,
            );
            self.transaction_accounting.create_margin_transfer(transaction);
        } else if target.m < om_bal.m {
            let delta = om_bal.minus(target);
            let transaction = Transaction::new(
                LedgerAccount::UserWallet,
                LedgerAccount::UserOrderMargin,
                delta,
            );
            self.transaction_accounting.create_margin_transfer(transaction);
        }
    }

    /// Cancel an active limit order by its exchange order id.
    ///
    /// Returns the cancelled order, or `OrderIdNotFound` when no active
    /// order carries the id.  The margin the cancelled order had reserved
    /// returns to the wallet; cancelling never shrinks the wallet.
    pub fn cancel_limit_order(&mut self, order_id: u64) -> (r: Result<LimitOrder<Pending>, Error>)
        requires
            old(self).wf(),
            old(self).in_bounds(),
        ensures
            final(self).wf(),
            r is Ok <==> old(self).active_limit_orders.spec_contains_id(order_id),
            r matches Err(e) ==> e == Error::LookupError(LookupError::OrderIdNotFound) && *final(self) == *old(self),
            r matches Ok(o) ==> exists|i: int|
                {
                    &&& 0 <= i < old(self).active_limit_orders@.len()
                    &&& o == old(self).active_limit_orders@[i]
                    &&& o.state.meta.id == order_id
                    &&& final(self).active_limit_orders@ =~= old(self).active_limit_orders@.remove(
                        i,
                    )
                },
            final(self).config == old(self).config,
            final(self).market_state == old(self).market_state,
            final(self).next_order_id == old(self).next_order_id,
            final(self).position == old(self).position,
            final(self).spec_balance(LedgerAccount::UserWallet) >= old(self).spec_balance(
                LedgerAccount::UserWallet,
            ),
            final(self).spec_balance(LedgerAccount::UserWallet) == old(self).spec_balance(
                LedgerAccount::UserWallet,
            ) + old(self).spec_balance(LedgerAccount::UserOrderMargin) - final(self).spec_balance(
                LedgerAccount::UserOrderMargin,
            ),
            final(self).spec_balance(LedgerAccount::UserPositionMargin) == old(self).spec_balance(
                LedgerAccount::UserPositionMargin,
            ),
            final(self).spec_balance(LedgerAccount::ExchangeFee) == old(self).spec_balance(
                LedgerAccount::ExchangeFee,
            ),
            final(self).spec_balance(LedgerAccount::Treasury) == old(self).spec_balance(
                LedgerAccount::Treasury,
            ),
            final(self).transaction_accounting.spec_balance_sum() == old(self).transaction_accounting.spec_balance_sum(),
            final(self).transaction_accounting.spec_posts_bounded(
                BALANCE_LIMIT as int + 2 * AMOUNT_CAP,
            ),
    {
        let idx = match self.active_limit_orders.find_index(order_id) {
            None => {
                return Err(Error::LookupError(LookupError::OrderIdNotFound));
            },
            Some(i) => i,
        };
        let ghost orders0 = self.active_limit_orders@;
        let ghost pos0 = self.position;
        let removed = self.active_limit_orders.take_at(idx);
        if removed.user_order_id != 0 {
            let _ = self.lookup_order_nonce_from_user_order_id.remove(removed.user_order_id);
        }
        proof {
            lemma_order_margin_in_cap(orders0, pos0, old(self).spec_imr());
            lemma_order_margin_in_cap(self.active_limit_orders@, pos0, old(self).spec_imr());
            crate::order_margin::lemma_cancel_order_margin_monotone(
                orders0,
                idx as int,
                pos0,
                old(self).spec_imr(),
            );
        }
        self.retarget_order_margin();
        proof {
            lemma_user_index_wf_after_remove(*old(self), *self, idx as int);
        }
        Ok(removed)
    }

    /// Cancel an active limit order by the user-supplied order id it was
    /// submitted under.
    ///
    /// Returns the cancelled order, or `UserOrderIdNotFound` when no active
    /// order carries the user id.
    pub fn cancel_order_by_user_id(&mut self, user_order_id: u64) -> (r: Result<
        LimitOrder<Pending>,
        Error,
    >)
        requires
            old(self).wf(),
            old(self).in_bounds(),
        ensures
            final(self).wf(),
            r is Ok <==> (user_order_id != 0 && old(self).active_limit_orders.spec_contains_user_id(
                user_order_id,
            )),
            r matches Err(e) ==> e == Error::LookupError(LookupError::UserOrderIdNotFound)
                && *final(self) == *old(self),
            r matches Ok(o) ==> o.user_order_id == user_order_id && exists|i: int|
                {
                    &&& 0 <= i < old(self).active_limit_orders@.len()
                    &&& o == old(self).active_limit_orders@[i]
                    &&& final(self).active_limit_orders@ =~= old(self).active_limit_orders@.remove(
                        i,
                    )
                },
            final(self).config == old(self).config,
            final(self).market_state == old(self).market_state,
            final(self).next_order_id == old(self).next_order_id,
            final(self).position == old(self).position,
            final(self).spec_balance(LedgerAccount::UserWallet) >= old(self).spec_balance(
                LedgerAccount::UserWallet,
            ),
            final(self).transaction_accounting.spec_balance_sum() == old(self).transaction_accounting.spec_balance_sum(),
            final(self).transaction_accounting.spec_posts_bounded(
                BALANCE_LIMIT as int + 2 * AMOUNT_CAP,
            ),
    {
        let id = match self.lookup_order_nonce_from_user_order_id.get(user_order_id) {
            None => {
                return Err(Error::LookupError(LookupError::UserOrderIdNotFound));
            },
            Some(id) => id,
        };
        let r = self.cancel_limit_order(id);
        match r {
            Ok(o) => Ok(o),
            Err(_) => Err(Error::LookupError(LookupError::UserOrderIdNotFound)),
        }
    }
}

/// Removing one order keeps the user-order-id index in sync, once the
/// removed order's user id has left the index too.
proof fn lemma_user_index_wf_after_remove(pre: Exchange, post: Exchange, i: int)
    requires
        pre.user_index_wf(),
        0 <= i < pre.active_limit_orders@.len(),
        forall|k: int, j: int|
            0 <= k < j < pre.active_limit_orders@.len() ==> pre.active_limit_orders@[k].user_order_id
                == 0 || pre.active_limit_orders@[k].user_order_id
                != pre.active_limit_orders@[j].user_order_id,
        post.active_limit_orders@ =~= pre.active_limit_orders@.remove(i),
        user_id_index_contents(post.lookup_order_nonce_from_user_order_id) == (if pre.active_limit_orders@[i].user_order_id
            != 0 {
            user_id_index_contents(pre.lookup_order_nonce_from_user_order_id).remove(
                pre.active_limit_orders@[i].user_order_id,
            )
        } else {
            user_id_index_contents(pre.lookup_order_nonce_from_user_order_id)
        }),
    ensures
        post.user_index_wf(),
{
    let orders0 = pre.active_limit_orders@;
    let orders1 = post.active_limit_orders@;
    let c0 = user_id_index_contents(pre.lookup_order_nonce_from_user_order_id);
    let c1 = user_id_index_contents(post.lookup_order_nonce_from_user_order_id);
    assert forall|k: int|
        0 <= k < orders1.len() && (#[trigger] orders1[k]).user_order_id != 0 implies {
        &&& c1.dom().contains(orders1[k].user_order_id)
        &&& c1[orders1[k].user_order_id] == orders1[k].state.meta.id
    } by {
        let k0 = if k < i {
            k
        } else {
            k + 1
        };
        assert(orders1[k] == orders0[k0]);
        if orders0[i].user_order_id != 0 {
            if k0 < i {
                assert(orders0[k0].user_order_id != orders0[i].user_order_id);
            } else {
                assert(orders0[i].user_order_id != orders0[k0].user_order_id);
            }
        }
    }
    assert forall|uid: u64| #[trigger] c1.dom().contains(uid) implies uid != 0 && exists|k: int|
        0 <= k < orders1.len() && (#[trigger] orders1[k]).user_order_id == uid by {
        assert(c0.dom().contains(uid));
        let k0 = choose|k0: int|
            0 <= k0 < orders0.len() && (#[trigger] orders0[k0]).user_order_id == uid;
        assert(k0 != i);
        let k = if k0 < i {
            k0
        } else {
            k0 - 1
        };
        assert(orders1[k] == orders0[k0]);
    }
}

impl Exchange {
    /// The filter checks a limit order must pass before it is assigned an
    /// id: the quantity filter, then the price filter against the mid.
    pub open spec fn spec_submit_limit_precheck(self, order: LimitOrder<NewOrder>) -> Result<
        (),
        Error,
    > {
        match self.config.contract_spec.quantity_filter.spec_validate(order.quantity@) {
            Err(e) => Err(Error::FilterError(e)),
            Ok(()) => match self.config.contract_spec.price_filter.spec_validate_limit_price(
                order.limit_price@,
                self.market_state.spec_mid_price(),
            ) {
                Err(e) => Err(Error::FilterError(e)),
                Ok(()) => Ok(()),
            },
        }
    }

    /// The pending form a new limit order takes when the exchange accepts
    /// it: the next order id and the current exchange time are filled in.
    pub open spec fn spec_accepted_order(self, order: LimitOrder<NewOrder>) -> LimitOrder<
        Pending,
    > {
        LimitOrder {
            user_order_id: order.user_order_id,
            side: order.side,
            limit_price: order.limit_price,
            quantity: order.quantity,
            state: Pending {
                meta: ExchangeOrderMeta {
                    id: self.next_order_id,
                    ts_ns_created: self.market_state.current_ts_ns,
                },
                filled_quantity: crate::order_status::FilledQuantity::Unfilled,
            },
        }
    }

    /// The checks a limit order must pass after it is assigned an id: it
    /// must not cross the spread, the book must have room, its user id must
    /// be fresh, and the wallet must cover the growth of the order margin.
    pub open spec fn spec_submit_limit_verdict(self, order: LimitOrder<NewOrder>) -> Result<
        (),
        Error,
    > {
        let contents = user_id_index_contents(self.lookup_order_nonce_from_user_order_id);
        let new_margin = spec_order_margin(
            self.active_limit_orders@.push(self.spec_accepted_order(order)),
            self.position,
            self.spec_imr(),
        );
        if order.side == Side::Buy && order.limit_price@ >= self.market_state.ask@ {
            Err(
                Error::OrderError(
                    OrderError::GoodTillCrossingRejected {
                        limit_price: order.limit_price,
                        away_market_quotation_price: self.market_state.ask,
                    },
                ),
            )
        } else if order.side == Side::Sell && order.limit_price@ <= self.market_state.bid@ {
            Err(
                Error::OrderError(
                    OrderError::GoodTillCrossingRejected {
                        limit_price: order.limit_price,
                        away_market_quotation_price: self.market_state.bid,
                    },
                ),
            )
        } else if self.active_limit_orders@.len() >= self.config.max_num_open_orders {
            Err(Error::RiskError(RiskError::ExceedsMaxOpenOrders))
        } else if order.user_order_id != 0 && contents.dom().contains(order.user_order_id) {
            Err(Error::OrderError(OrderError::DuplicateUserOrderId))
        } else if new_margin - self.spec_balance(LedgerAccount::UserOrderMargin)
            > self.spec_balance(LedgerAccount::UserWallet) {
            Err(Error::RiskError(RiskError::NotEnoughAvailableBalance))
        } else {
            Ok(())
        }
    }

    /// Submit a new limit order.
    ///
    /// The order passes the quantity and price filters, receives the next
    /// order id (which is consumed even if a later check rejects the
    /// order), must rest passively (a buy below the ask, a sell above the
    /// bid), and must leave the wallet covering the grown order margin.
    /// On success it rests in the book with its margin reserved.
    pub fn submit_limit_order(&mut self, order: LimitOrder<NewOrder>) -> (r: Result<
        LimitOrder<Pending>,
        Error,
    >)
        requires
            old(self).wf(),
            old(self).in_bounds(),
            order.spec_valid_new(),
        ensures
            final(self).wf(),
            final(self).config == old(self).config,
            final(self).market_state == old(self).market_state,
            final(self).position == old(self).position,
            r is Ok <==> (old(self).spec_submit_limit_precheck(order) is Ok && old(self).spec_submit_limit_verdict(order) is Ok),
            old(self).spec_submit_limit_precheck(order) matches Err(e) ==> r == Err::<
                LimitOrder<Pending>,
                Error,
            >(e) && *final(self) == *old(self),
            (old(self).spec_submit_limit_precheck(order) is Ok && old(self).spec_submit_limit_verdict(order) is Err) ==> {
                &&& r == Err::<LimitOrder<Pending>, Error>(
                    old(self).spec_submit_limit_verdict(order)->Err_0,
                )
                &&& final(self).next_order_id == old(self).next_order_id + 1
                &&& final(self).active_limit_orders@ =~= old(self).active_limit_orders@
                &&& final(self).lookup_order_nonce_from_user_order_id == old(self).lookup_order_nonce_from_user_order_id
                &&& final(self).transaction_accounting == old(self).transaction_accounting
            },
            r is Ok ==> {
                &&& r == Ok::<LimitOrder<Pending>, Error>(old(self).spec_accepted_order(order))
                &&& final(self).next_order_id == old(self).next_order_id + 1
                &&& final(self).active_limit_orders@ =~= old(self).active_limit_orders@.push(
                    old(self).spec_accepted_order(order),
                )
                &&& final(self).spec_balance(LedgerAccount::UserOrderMargin) == spec_order_margin(
                    final(self).active_limit_orders@,
                    old(self).position,
                    old(self).spec_imr(),
                )
                &&& final(self).spec_balance(LedgerAccount::UserWallet) == old(self).spec_balance(
                    LedgerAccount::UserWallet,
                ) + old(self).spec_balance(LedgerAccount::UserOrderMargin) - final(self).spec_balance(LedgerAccount::UserOrderMargin)
                &&& final(self).spec_balance(LedgerAccount::UserPositionMargin) == old(self).spec_balance(LedgerAccount::UserPositionMargin)
                &&& final(self).spec_balance(LedgerAccount::ExchangeFee) == old(self).spec_balance(
                    LedgerAccount::ExchangeFee,
                )
                &&& final(self).spec_balance(LedgerAccount::Treasury) == old(self).spec_balance(
                    LedgerAccount::Treasury,
                )
            },
            old(self).spec_balance(LedgerAccount::UserWallet) >= 0 ==> final(self).spec_balance(
                LedgerAccount::UserWallet,
            ) >= 0,
            final(self).transaction_accounting.spec_balance_sum() == old(self).transaction_accounting.spec_balance_sum(),
            final(self).transaction_accounting.spec_posts_bounded(
                BALANCE_LIMIT as int + 2 * AMOUNT_CAP,
            ),
    {
        if let Err(e) = self.config.contract_spec.quantity_filter.validate_order_quantity(
            order.quantity,
        ) {
            return Err(Error::FilterError(e));
        }
        let mid = self.market_state.mid_price();
        if let Err(e) = self.config.contract_spec.price_filter.validate_limit_price(
            order.limit_price,
            mid,
        ) {
            return Err(Error::FilterError(e));
        }
        let meta = ExchangeOrderMeta::new(
            self.next_order_id,
            self.market_state.current_timestamp_ns(),
        );
        self.next_order_id = self.next_order_id + 1;
        let pending_order = order.into_pending(meta);
        match pending_order.side {
            Side::Buy => {
                if pending_order.limit_price.m >= self.market_state.ask.m {
                    return Err(
                        Error::OrderError(
                            OrderError::GoodTillCrossingRejected {
                                limit_price: pending_order.limit_price,
                                away_market_quotation_price: self.market_state.ask,
                            },
                        ),
                    );
                }
            },
            Side::Sell => {
                if pending_order.limit_price.m <= self.market_state.bid.m {
                    return Err(
                        Error::OrderError(
                            OrderError::GoodTillCrossingRejected {
                                limit_price: pending_order.limit_price,
                                away_market_quotation_price: self.market_state.bid,
                            },
                        ),
                    );
                }
            },
        }
        if self.active_limit_orders.num_active() as u64 >= self.config.max_num_open_orders {
            return Err(Error::RiskError(RiskError::ExceedsMaxOpenOrders));
        }
        if pending_order.user_order_id != 0 {
            if let Some(_) = self.lookup_order_nonce_from_user_order_id.get(
                pending_order.user_order_id,
            ) {
                return Err(Error::OrderError(OrderError::DuplicateUserOrderId));
            }
        }
        let ghost orders0 = self.active_limit_orders@;
        self.active_limit_orders.append(pending_order);
        let new_margin = compute_order_margin(
            &self.active_limit_orders,
            &self.position,
            self.config.contract_spec.init_margin_req,
        );
        let om_bal = self.transaction_accounting.margin_balance_of(LedgerAccount::UserOrderMargin);
        let wallet = self.transaction_accounting.margin_balance_of(LedgerAccount::UserWallet);
        proof {
            lemma_order_margin_in_cap(orders0, self.position, self.spec_imr());
        }
        if new_margin.m - om_bal.m > wallet.m {
            let rolled_back = self.active_limit_orders.take_at(
                self.active_limit_orders.num_active() - 1,
            );
            proof {
                assert(self.active_limit_orders@ =~= orders0);
            }
            return Err(Error::RiskError(RiskError::NotEnoughAvailableBalance));
        }
        if pending_order.user_order_id != 0 {
            let _ = self.lookup_order_nonce_from_user_order_id.insert(
                pending_order.user_order_id,
                pending_order.state.meta.id,
            );
        }
        self.retarget_order_margin();
        proof {
            lemma_user_index_wf_after_push(*old(self), *self, pending_order);
        }
        Ok(pending_order)
    }
}

/// Appending an order with a fresh id, indexing its user id when it has
/// one, keeps the user-order-id index in sync.
proof fn lemma_user_index_wf_after_push(pre: Exchange, post: Exchange, o: LimitOrder<Pending>)
    requires
        pre.user_index_wf(),
        post.active_limit_orders@ =~= pre.active_limit_orders@.push(o),
        o.user_order_id != 0 ==> !user_id_index_contents(
            pre.lookup_order_nonce_from_user_order_id,
        ).dom().contains(o.user_order_id),
        user_id_index_contents(post.lookup_order_nonce_from_user_order_id) == (if o.user_order_id
            != 0 {
            user_id_index_contents(pre.lookup_order_nonce_from_user_order_id).insert(
                o.user_order_id,
                o.state.meta.id,
            )
        } else {
            user_id_index_contents(pre.lookup_order_nonce_from_user_order_id)
        }),
    ensures
        post.user_index_wf(),
{
    let orders0 = pre.active_limit_orders@;
    let orders1 = post.active_limit_orders@;
    let c0 = user_id_index_contents(pre.lookup_order_nonce_from_user_order_id);
    let c1 = user_id_index_contents(post.lookup_order_nonce_from_user_order_id);
    assert forall|k: int|
        0 <= k < orders1.len() && (#[trigger] orders1[k]).user_order_id != 0 implies {
        &&& c1.dom().contains(orders1[k].user_order_id)
        &&& c1[orders1[k].user_order_id] == orders1[k].state.meta.id
    } by {
        if k < orders0.len() {
            assert(orders1[k] == orders0[k]);
            if o.user_order_id != 0 {
                assert(orders0[k].user_order_id != 0 ==> c0.dom().contains(
                    orders0[k].user_order_id,
                ));
                assert(orders0[k].user_order_id != o.user_order_id);
            }
        } else {
            assert(orders1[k] == o);
        }
    }
    assert forall|uid: u64| #[trigger] c1.dom().contains(uid) implies uid != 0 && exists|k: int|
        0 <= k < orders1.len() && (#[trigger] orders1[k]).user_order_id == uid by {
        if o.user_order_id != 0 && uid == o.user_order_id {
            assert(orders1[orders1.len() - 1].user_order_id == uid);
        } else {
            assert(c0.dom().contains(uid));
            let k0 = choose|k0: int|
                0 <= k0 < orders0.len() && (#[trigger] orders0[k0]).user_order_id == uid;
            assert(orders1[k0] == orders0[k0]);
        }
    }
    assert forall|i: int, j: int|
        0 <= i < j < orders1.len() implies orders1[i].user_order_id == 0
        || orders1[i].user_order_id != orders1[j].user_order_id by {
        if j == orders1.len() - 1 && i < orders0.len() && orders1[i].user_order_id != 0 {
            assert(orders1[i] == orders0[i]);
            if o.user_order_id != 0 {
                assert(c0.dom().contains(orders0[i].user_order_id));
            }
        }
    }
}

impl Exchange {
    /// The price a market order fills at: the ask for a buy, the bid for a
    /// sell.
    pub open spec fn spec_market_fill_price(self, side: Side) -> int {
        match side {
            Side::Buy => self.market_state.ask@,
            Side::Sell => self.market_state.bid@,
        }
    }

    /// The wallet balance a market order would leave behind: the old
    /// wallet, plus the released and minus the newly reserved position and
    /// order margins, plus the realized profit or loss, minus the taker
    /// fee.  The order is accepted exactly when this is not negative.
    pub open spec fn spec_market_order_prospective_wallet(self, qty: int, side: Side) -> int {
        let p = self.spec_market_fill_price(side);
        let pos1 = self.position.spec_apply(qty, p, side);
        let pnl = self.position.spec_realized_pnl(qty, p, side);
        let fee = spec_mul_scaled(crate::position::spec_notional(qty, p), self.config.contract_spec.fee_taker@);
        let om1 = spec_order_margin(self.active_limit_orders@, pos1, self.spec_imr());
        self.spec_balance(LedgerAccount::UserWallet) + self.position.spec_position_margin(
            self.spec_imr(),
        ) - pos1.spec_position_margin(self.spec_imr()) + self.spec_balance(
            LedgerAccount::UserOrderMargin,
        ) - om1 + pnl - fee
    }

    /// Remove a fee amount from the wallet into the exchange fee account;
    /// a negative amount (a rebate) moves the other way.
    fn detract_fee(&mut self, fee: QuoteCurrency)
        requires
            vstd::math::abs(fee@) <= AMOUNT_CAP,
            old(self).transaction_accounting.spec_posts_bounded(2 * LEDGER_POSTS_LIMIT as int),
        ensures
            final(self).config == old(self).config,
            final(self).market_state == old(self).market_state,
            final(self).next_order_id == old(self).next_order_id,
            final(self).position == old(self).position,
            final(self).active_limit_orders == old(self).active_limit_orders,
            final(self).lookup_order_nonce_from_user_order_id == old(self).lookup_order_nonce_from_user_order_id,
            final(self).spec_balance(LedgerAccount::UserWallet) == old(self).spec_balance(
                LedgerAccount::UserWallet,
            ) - fee@,
            final(self).spec_balance(LedgerAccount::ExchangeFee) == old(self).spec_balance(
                LedgerAccount::ExchangeFee,
            ) + fee@,
            final(self).spec_balance(LedgerAccount::UserPositionMargin) == old(self).spec_balance(
                LedgerAccount::UserPositionMargin,
            ),
            final(self).spec_balance(LedgerAccount::UserOrderMargin) == old(self).spec_balance(
                LedgerAccount::UserOrderMargin,
            ),
            final(self).spec_balance(LedgerAccount::Treasury) == old(self).spec_balance(
                LedgerAccount::Treasury,
            ),
            final(self).transaction_accounting.spec_balance_sum() == old(self).transaction_accounting.spec_balance_sum(),
            forall|b: int|
                old(self).transaction_accounting.spec_posts_bounded(b) ==> final(self).transaction_accounting.spec_posts_bounded(b + AMOUNT_CAP),
    {
        if fee.m > 0 {
            let transaction = Transaction::new(
                LedgerAccount::ExchangeFee,
                LedgerAccount::UserWallet,
                fee,
            );
            self.transaction_accounting.create_margin_transfer(transaction);
        } else if fee.m < 0 {
            let transaction = Transaction::new(
                LedgerAccount::UserWallet,
                LedgerAccount::ExchangeFee,
                fee.abs(),
            );
            self.transaction_accounting.create_margin_transfer(transaction);
        }
    }

    /// Submit a new market order.
    ///
    /// The order passes the quantity filter and receives the next order id
    /// (consumed even if the risk check rejects it).  It fills immediately
    /// and fully at the current best opposing quote.  It is accepted
    /// exactly when the wallet it would leave behind is not negative;
    /// acceptance mutates the position, settles the realized profit or
    /// loss, trues up both margin accounts and deducts the taker fee.
    #[verifier::rlimit(100)]
    pub fn submit_market_order(&mut self, order: MarketOrder<NewOrder>) -> (r: Result<
        MarketOrder<Filled>,
        Error,
    >)
        requires
            old(self).wf(),
            old(self).in_bounds(),
            order.spec_valid_new(),
            old(self).market_state.ask@ > 0,
        ensures
            final(self).wf(),
            final(self).config == old(self).config,
            final(self).market_state == old(self).market_state,
            match old(self).config.contract_spec.quantity_filter.spec_validate(order.quantity@) {
                Err(e) => r == Err::<MarketOrder<Filled>, Error>(Error::FilterError(e)) && *final(self) == *old(self),
                Ok(()) => {
                    &&& final(self).next_order_id == old(self).next_order_id + 1
                    &&& final(self).active_limit_orders@ =~= old(self).active_limit_orders@
                    &&& final(self).lookup_order_nonce_from_user_order_id == old(self).lookup_order_nonce_from_user_order_id
                    &&& if old(self).spec_market_order_prospective_wallet(
                        order.quantity@,
                        order.side,
                    ) < 0 {
                        &&& r == Err::<MarketOrder<Filled>, Error>(
                            Error::RiskError(RiskError::NotEnoughAvailableBalance),
                        )
                        &&& final(self).position == old(self).position
                        &&& final(self).transaction_accounting == old(self).transaction_accounting
                    } else {
                        &&& r == Ok::<MarketOrder<Filled>, Error>(
                            MarketOrder {
                                user_order_id: order.user_order_id,
                                side: order.side,
                                quantity: order.quantity,
                                state: Filled {
                                    meta: ExchangeOrderMeta {
                                        id: old(self).next_order_id,
                                        ts_ns_created: old(self).market_state.current_ts_ns,
                                    },
                                    ts_ns_executed: old(self).market_state.current_ts_ns,
                                    avg_fill_price: QuoteCurrency {
                                        m: old(self).spec_market_fill_price(order.side) as i128,
                                    },
                                    filled_qty: order.quantity,
                                },
                            },
                        )
                        &&& final(self).position == old(self).position.spec_apply(
                            order.quantity@,
                            old(self).spec_market_fill_price(order.side),
                            order.side,
                        )
                        &&& final(self).spec_balance(LedgerAccount::UserWallet) == old(self).spec_market_order_prospective_wallet(order.quantity@, order.side)
                        &&& final(self).spec_balance(LedgerAccount::UserWallet) >= 0
                        &&& final(self).spec_balance(LedgerAccount::Treasury) == old(self).spec_balance(LedgerAccount::Treasury) - old(self).position.spec_realized_pnl(
                            order.quantity@,
                            old(self).spec_market_fill_price(order.side),
                            order.side,
                        )
                        &&& final(self).spec_balance(LedgerAccount::ExchangeFee) == old(self).spec_balance(LedgerAccount::ExchangeFee) + spec_mul_scaled(
                            crate::position::spec_notional(
                                order.quantity@,
                                old(self).spec_market_fill_price(order.side),
                            ),
                            old(self).config.contract_spec.fee_taker@,
                        )
                    }
                },
            },
            final(self).transaction_accounting.spec_balance_sum() == old(self).transaction_accounting.spec_balance_sum(),
            final(self).transaction_accounting.spec_posts_bounded(
                BALANCE_LIMIT as int + 10 * AMOUNT_CAP,
            ),
    {
        if let Err(e) = self.config.contract_spec.quantity_filter.validate_order_quantity(
            order.quantity,
        ) {
            return Err(Error::FilterError(e));
        }
        let meta = ExchangeOrderMeta::new(
            self.next_order_id,
            self.market_state.current_timestamp_ns(),
        );
        self.next_order_id = self.next_order_id + 1;
        let fill_price = match order.side {
            Side::Buy => self.market_state.ask,
            Side::Sell => self.market_state.bid,
        };
        proof {
            lemma_abs_mul_le(order.quantity@, fill_price@, UNIT_LIMIT as int, UNIT_LIMIT as int);
        }
        let notional = order.quantity.convert(fill_price);
        proof {
            crate::currency::lemma_mul_scaled_monotone(0, order.quantity@, fill_price@);
            assert(notional@ <= UNIT_LIMIT as int * UNIT_LIMIT as int / SCALE as int)
                by (nonlinear_arith)
                requires
                    notional@ == (order.quantity@ * fill_price@) / (SCALE as int),
                    0 <= order.quantity@ * fill_price@ <= UNIT_LIMIT as int * UNIT_LIMIT as int,
            ;
            lemma_abs_mul_le(
                notional@,
                self.config.contract_spec.fee_taker@,
                UNIT_LIMIT as int * UNIT_LIMIT as int / SCALE as int,
                SCALE as int,
            );
            lemma_abs_mul_le(notional@, 1, UNIT_LIMIT as int * UNIT_LIMIT as int / SCALE as int, 1);
        }
        let fee = notional.times_fraction(self.config.contract_spec.fee_taker);
        proof {
            assert(vstd::math::abs(fee@) <= AMOUNT_CAP) by (nonlinear_arith)
                requires
                    vstd::math::abs(fee@) <= vstd::math::abs(
                        notional@ * self.config.contract_spec.fee_taker@,
                    ),
                    vstd::math::abs(notional@) <= UNIT_LIMIT as int * UNIT_LIMIT as int
                        / SCALE as int,
                    vstd::math::abs(self.config.contract_spec.fee_taker@) <= SCALE,
            ;
        }
        let mut sim_pos = self.position;
        let mut sim_acc = self.transaction_accounting;
        sim_pos.change_position(
            order.quantity,
            fill_price,
            order.side,
            &mut sim_acc,
            self.config.contract_spec.init_margin_req,
        );
        let om1 = compute_order_margin(
            &self.active_limit_orders,
            &sim_pos,
            self.config.contract_spec.init_margin_req,
        );
        let om0 = sim_acc.margin_balance_of(LedgerAccount::UserOrderMargin);
        let sim_wallet = sim_acc.margin_balance_of(LedgerAccount::UserWallet);
        let prospective: i128 = sim_wallet.m + om0.m - om1.m - fee.m;
        if prospective < 0 {
            return Err(Error::RiskError(RiskError::NotEnoughAvailableBalance));
        }
        self.position = sim_pos;
        self.transaction_accounting = sim_acc;
        self.detract_fee(fee);
        proof {
            lemma_order_margin_in_cap(
                self.active_limit_orders@,
                old(self).position,
                self.spec_imr(),
            );
        }
        self.retarget_order_margin();
        let filled_order = order.into_pending(meta).into_filled(
            fill_price,
            self.market_state.current_timestamp_ns(),
        );
        Ok(filled_order)
    }
}

/// The form a pending order takes after a further partial fill of `f` at
/// its limit price.
pub open spec fn spec_after_partial_fill(o: LimitOrder<Pending>, f: int) -> LimitOrder<Pending> {
    LimitOrder {
        user_order_id: o.user_order_id,
        side: o.side,
        limit_price: o.limit_price,
        quantity: o.quantity,
        state: Pending {
            meta: o.state.meta,
            filled_quantity: crate::order_status::FilledQuantity::Filled {
                cumulative_qty: BaseCurrency {
                    m: (o.state.filled_quantity.spec_cumulative() + f) as i128,
                },
                avg_price: o.limit_price,
            },
        },
    }
}

/// The terminal form of a pending order fully filled at time `ts`.
pub open spec fn spec_filled_form(o: LimitOrder<Pending>, ts: i64) -> LimitOrder<Filled> {
    LimitOrder {
        user_order_id: o.user_order_id,
        side: o.side,
        limit_price: o.limit_price,
        quantity: o.quantity,
        state: Filled {
            meta: o.state.meta,
            ts_ns_executed: ts,
            avg_fill_price: o.limit_price,
            filled_qty: o.quantity,
        },
    }
}

/// The outcome of one matching pass of a market update over the resting
/// orders, processed in ascending order-id order: the orders left resting,
/// the final position, the emitted order updates, the total realized
/// profit or loss, and the total maker fees charged.
pub open spec fn spec_match(
    u: MarketUpdate,
    orders: Seq<LimitOrder<Pending>>,
    pos: Position,
    fee_maker: int,
    ts: i64,
) -> (Seq<LimitOrder<Pending>>, Position, Seq<LimitOrderUpdate>, int, int)
    decreases orders.len(),
{
    if orders.len() == 0 {
        (
            Seq::<LimitOrder<Pending>>::empty(),
            pos,
            Seq::<LimitOrderUpdate>::empty(),
            0int,
            0int,
        )
    } else {
        let o = orders[0];
        let rest = orders.skip(1);
        let f = u.spec_fill_qty(o);
        if f == 0 {
            let tail = spec_match(u, rest, pos, fee_maker, ts);
            (seq![o] + tail.0, tail.1, tail.2, tail.3, tail.4)
        } else {
            let pos1 = pos.spec_apply(f, o.limit_price@, o.side);
            let pnl1 = pos.spec_realized_pnl(f, o.limit_price@, o.side);
            let fee1 = spec_mul_scaled(
                crate::position::spec_notional(f, o.limit_price@),
                fee_maker,
            );
            let tail = spec_match(u, rest, pos1, fee_maker, ts);
            if f == o.spec_remaining() {
                (
                    tail.0,
                    tail.1,
                    seq![LimitOrderUpdate::FullyFilled(spec_filled_form(o, ts))] + tail.2,
                    pnl1 + tail.3,
                    fee1 + tail.4,
                )
            } else {
                (
                    seq![spec_after_partial_fill(o, f)] + tail.0,
                    tail.1,
                    seq![LimitOrderUpdate::PartiallyFilled(spec_after_partial_fill(o, f))]
                        + tail.2,
                    pnl1 + tail.3,
                    fee1 + tail.4,
                )
            }
        }
    }
}

impl Exchange {
    /// The maker fee of a fill: the filled notional times the maker rate,
    /// negative for a rebate.
    fn fill_fee(quantity: BaseCurrency, price: QuoteCurrency, rate: crate::currency::Fee) -> (r:
        QuoteCurrency)
        requires
            0 <= quantity@ <= UNIT_LIMIT,
            0 < price@ <= UNIT_LIMIT,
            -SCALE <= rate@ <= SCALE,
        ensures
            r@ == spec_mul_scaled(crate::position::spec_notional(quantity@, price@), rate@),
            vstd::math::abs(r@) <= AMOUNT_CAP,
    {
        proof {
            lemma_abs_mul_le(quantity@, price@, UNIT_LIMIT as int, UNIT_LIMIT as int);
        }
        let notional = quantity.convert(price);
        proof {
            crate::currency::lemma_mul_scaled_monotone(0, quantity@, price@);
            assert(notional@ <= UNIT_LIMIT as int * UNIT_LIMIT as int / SCALE as int)
                by (nonlinear_arith)
                requires
                    notional@ == (quantity@ * price@) / (SCALE as int),
                    0 <= quantity@ * price@ <= UNIT_LIMIT as int * UNIT_LIMIT as int,
            ;
            lemma_abs_mul_le(
                notional@,
                rate@,
                UNIT_LIMIT as int * UNIT_LIMIT as int / SCALE as int,
                SCALE as int,
            );
        }
        let fee = notional.times_fraction(rate);
        proof {
            assert(vstd::math::abs(fee@) <= AMOUNT_CAP) by (nonlinear_arith)
                requires
                    vstd::math::abs(fee@) <= vstd::math::abs(notional@ * rate@),
                    vstd::math::abs(notional@) <= UNIT_LIMIT as int * UNIT_LIMIT as int
                        / SCALE as int,
                    vstd::math::abs(rate@) <= SCALE,
            ;
        }
        fee
    }

    /// Check the resting orders against a market update: fill what the
    /// update's taker flow reaches, mutate the position, settle fees, and
    /// keep both margin accounts at their required targets.
    #[verifier::rlimit(100)]
    fn check_active_orders(&mut self, market_update: &MarketUpdate, ts_ns: i64) -> (r: Vec<
        LimitOrderUpdate,
    >)
        requires
            old(self).wf(),
            old(self).transaction_accounting.spec_posts_bounded(BALANCE_LIMIT as int),
            old(self).position.spec_qty() <= POS_QTY_LIMIT / 2,
            market_update.wf(),
        ensures
            final(self).wf(),
            final(self).config == old(self).config,
            final(self).market_state == old(self).market_state,
            final(self).next_order_id == old(self).next_order_id,
            ({
                let outcome = spec_match(
                    *market_update,
                    old(self).active_limit_orders@,
                    old(self).position,
                    old(self).config.contract_spec.fee_maker@,
                    ts_ns,
                );
                &&& final(self).active_limit_orders@ =~= outcome.0
                &&& final(self).position == outcome.1
                &&& r@ =~= outcome.2
                &&& final(self).spec_balance(LedgerAccount::UserWallet) == old(self).spec_balance(
                    LedgerAccount::UserWallet,
                ) + old(self).position.spec_position_margin(old(self).spec_imr()) - final(self).position.spec_position_margin(old(self).spec_imr()) + old(self).spec_balance(
                    LedgerAccount::UserOrderMargin,
                ) - final(self).spec_balance(LedgerAccount::UserOrderMargin) + outcome.3
                    - outcome.4
                &&& final(self).spec_balance(LedgerAccount::Treasury) == old(self).spec_balance(
                    LedgerAccount::Treasury,
                ) - outcome.3
                &&& final(self).spec_balance(LedgerAccount::ExchangeFee) == old(self).spec_balance(
                    LedgerAccount::ExchangeFee,
                ) + outcome.4
            }),
            final(self).transaction_accounting.spec_balance_sum() == old(self).transaction_accounting.spec_balance_sum(),
            final(self).transaction_accounting.spec_posts_bounded(2 * LEDGER_POSTS_LIMIT as int),
            final(self).position.spec_qty() <= old(self).position.spec_qty() + old(self).active_limit_orders@.len() * UNIT_LIMIT,
    {
        let ghost u = *market_update;
        let ghost orders0 = self.active_limit_orders@;
        let ghost pos0 = self.position;
        let ghost fm: int = self.config.contract_spec.fee_maker@;
        let ghost full = spec_match(u, orders0, pos0, fm, ts_ns);
        let ghost wallet0 = self.spec_balance(LedgerAccount::UserWallet);
        let ghost treasury0 = self.spec_balance(LedgerAccount::Treasury);
        let ghost feeacct0 = self.spec_balance(LedgerAccount::ExchangeFee);
        let ghost om0 = self.spec_balance(LedgerAccount::UserOrderMargin);
        let ghost pm0 = self.position.spec_position_margin(self.spec_imr());
        let mut order_updates: Vec<LimitOrderUpdate> = Vec::new();
        let mut i: usize = 0;
        let ghost mut g_pnl: int = 0;
        let ghost mut g_fee: int = 0;
        let ghost mut g_fills: int = 0;
        proof {
            assert(self.active_limit_orders@.skip(0) =~= orders0);
            assert(self.active_limit_orders@.take(0) + full.0 =~= full.0);
        }
        while i < self.active_limit_orders.num_active()
            invariant
                self.config == old(self).config,
                self.market_state == old(self).market_state,
                self.next_order_id == old(self).next_order_id,
                self.config.wf(),
                market_update.wf(),
                u == *market_update,
                self.active_limit_orders.wf(),
                self.position.wf(),
                i <= self.active_limit_orders@.len(),
                self.active_limit_orders@.len() <= orders0.len(),
                orders0.len() <= crate::order_margin::MAX_OPEN_ORDERS_CAP,
                fm == self.config.contract_spec.fee_maker@,
                0 <= g_fills,
                g_fills <= i + orders0.len() - self.active_limit_orders@.len(),
                self.position.spec_qty() <= pos0.spec_qty() + g_fills * UNIT_LIMIT,
                pos0.spec_qty() <= POS_QTY_LIMIT / 2,
                ({
                    let tail = spec_match(
                        u,
                        self.active_limit_orders@.skip(i as int),
                        self.position,
                        fm,
                        ts_ns,
                    );
                    &&& full.0 =~= self.active_limit_orders@.take(i as int) + tail.0
                    &&& full.1 == tail.1
                    &&& full.2 =~= order_updates@ + tail.2
                    &&& full.3 == g_pnl + tail.3
                    &&& full.4 == g_fee + tail.4
                }),
                self.spec_balance(LedgerAccount::UserPositionMargin)
                    == self.position.spec_position_margin(self.spec_imr()),
                self.spec_balance(LedgerAccount::UserOrderMargin) == spec_order_margin(
                    self.active_limit_orders@,
                    self.position,
                    self.spec_imr(),
                ),
                self.spec_balance(LedgerAccount::UserWallet) == wallet0 + pm0
                    - self.position.spec_position_margin(self.spec_imr()) + om0 - self.spec_balance(
                    LedgerAccount::UserOrderMargin,
                ) + g_pnl - g_fee,
                self.spec_balance(LedgerAccount::Treasury) == treasury0 - g_pnl,
                self.spec_balance(LedgerAccount::ExchangeFee) == feeacct0 + g_fee,
                self.transaction_accounting.spec_balance_sum() == old(self).transaction_accounting.spec_balance_sum(),
                self.transaction_accounting.spec_posts_bounded(
                    BALANCE_LIMIT as int + g_fills * 10 * AMOUNT_CAP,
                ),
                self.user_index_wf(),
                forall|k: int|
                    0 <= k < self.active_limit_orders@.len() ==> (#[trigger] self.active_limit_orders@[k]).state.meta.id
                        < self.next_order_id,
                self.active_limit_orders@.len() <= self.config.max_num_open_orders,
                spec_order_margin(orders0, pos0, self.spec_imr()) == om0,
                pos0.spec_position_margin(self.spec_imr()) == pm0,
            decreases self.active_limit_orders@.len() - i,
        {
            let ghost arr_pre = self.active_limit_orders@;
            let ghost pos_pre = self.position;
            proof {
                assert(arr_pre.skip(i as int).len() > 0);
                assert(arr_pre.skip(i as int)[0] == arr_pre[i as int]);
                assert(arr_pre.skip(i as int).skip(1) =~= arr_pre.skip(i as int + 1));
            }
            let o = *self.active_limit_orders.get(i);
            match market_update.limit_order_filled(&o) {
                None => {
                    proof {
                        assert(arr_pre.take(i as int + 1) =~= arr_pre.take(i as int) + seq![o]);
                        assert(arr_pre.take(i as int) + (seq![o] + spec_match(
                            u,
                            arr_pre.skip(i as int + 1),
                            self.position,
                            fm,
                            ts_ns,
                        ).0) =~= arr_pre.take(i as int + 1) + spec_match(
                            u,
                            arr_pre.skip(i as int + 1),
                            self.position,
                            fm,
                            ts_ns,
                        ).0);
                    }
                    i = i + 1;
                },
                Some(filled_qty) => {
                    let ghost fill_q: int = filled_qty@;
                    let ghost i0 = i;
                    let ghost updates_pre = order_updates@;
                    let mut updated = o;
                    let maybe_filled = updated.fill(filled_qty, ts_ns);
                    let ghost pre_snap = *self;
                    match maybe_filled {
                        Some(filled_order) => {
                            let removed = self.active_limit_orders.take_at(i);
                            if removed.user_order_id != 0 {
                                let _ = self.lookup_order_nonce_from_user_order_id.remove(
                                    removed.user_order_id,
                                );
                            }
                            proof {
                                lemma_user_index_wf_after_remove(pre_snap, *self, i as int);
                                assert(self.active_limit_orders@.take(i as int) =~= arr_pre.take(
                                    i as int,
                                ));
                                assert(self.active_limit_orders@.skip(i as int) =~= arr_pre.skip(
                                    i as int + 1,
                                ));
                            }
                            order_updates.push(LimitOrderUpdate::FullyFilled(filled_order));
                        },
                        None => {
                            self.active_limit_orders.set_at(i, updated);
                            proof {
                                lemma_user_index_update_same(pre_snap, *self, i as int);
                                assert(self.active_limit_orders@.take(i as int) =~= arr_pre.take(
                                    i as int,
                                ));
                                assert(self.active_limit_orders@.skip(i as int)[0] == updated);
                                assert(self.active_limit_orders@.skip(i as int).skip(1)
                                    =~= arr_pre.skip(i as int + 1));
                                assert(self.active_limit_orders@.take(i as int + 1) =~= arr_pre.take(
                                    i as int,
                                ) + seq![updated]);
                            }
                            order_updates.push(LimitOrderUpdate::PartiallyFilled(updated));
                            i = i + 1;
                        },
                    }
                    let fee = Self::fill_fee(
                        filled_qty,
                        o.limit_price,
                        self.config.contract_spec.fee_maker,
                    );
                    self.position.change_position(
                        filled_qty,
                        o.limit_price,
                        o.side,
                        &mut self.transaction_accounting,
                        self.config.contract_spec.init_margin_req,
                    );
                    self.detract_fee(fee);
                    proof {
                        lemma_order_margin_in_cap(
                            pre_snap.active_limit_orders@,
                            pos_pre,
                            self.spec_imr(),
                        );
                        lemma_order_margin_in_cap(
                            self.active_limit_orders@,
                            pos_pre,
                            self.spec_imr(),
                        );
                    }
                    self.retarget_order_margin();
                    proof {
                        g_pnl = g_pnl + pos_pre.spec_realized_pnl(fill_q, o.limit_price@, o.side);
                        g_fee = g_fee + spec_mul_scaled(
                            crate::position::spec_notional(fill_q, o.limit_price@),
                            fm,
                        );
                        g_fills = g_fills + 1;
                        let tail_pre = spec_match(u, arr_pre.skip(i0 as int), pos_pre, fm, ts_ns);
                        let tail_next = spec_match(
                            u,
                            self.active_limit_orders@.skip(i as int),
                            self.position,
                            fm,
                            ts_ns,
                        );
                        if fill_q == o.spec_remaining() {
                            assert(tail_pre.0 =~= tail_next.0);
                            assert(tail_pre.2 =~= seq![
                                LimitOrderUpdate::FullyFilled(spec_filled_form(o, ts_ns)),
                            ] + tail_next.2);
                            assert(order_updates@ =~= updates_pre.push(
                                LimitOrderUpdate::FullyFilled(spec_filled_form(o, ts_ns)),
                            ));
                            assert(updates_pre + tail_pre.2 =~= order_updates@ + tail_next.2);
                            assert(full.0 =~= self.active_limit_orders@.take(i as int)
                                + tail_next.0);
                        } else {
                            let o2 = spec_after_partial_fill(o, fill_q);
                            assert(updated == o2);
                            assert(self.active_limit_orders@.skip(i as int) =~= arr_pre.skip(
                                i0 as int + 1,
                            ));
                            assert(tail_pre.0 =~= seq![o2] + tail_next.0);
                            assert(tail_pre.2 =~= seq![LimitOrderUpdate::PartiallyFilled(o2)]
                                + tail_next.2);
                            assert(order_updates@ =~= updates_pre.push(
                                LimitOrderUpdate::PartiallyFilled(o2),
                            ));
                            assert(updates_pre + tail_pre.2 =~= order_updates@ + tail_next.2);
                            assert(arr_pre.take(i0 as int) + tail_pre.0 =~= (arr_pre.take(i0 as int)
                                + seq![o2]) + tail_next.0);
                            assert(self.active_limit_orders@.take(i as int) =~= arr_pre.take(
                                i0 as int,
                            ) + seq![o2]);
                            assert(full.0 =~= self.active_limit_orders@.take(i as int)
                                + tail_next.0);
                        }
                        assert(full.2 =~= order_updates@ + tail_next.2);
                    }
                },
            }
        }
        proof {
            assert(self.active_limit_orders@.skip(i as int) =~= Seq::<
                LimitOrder<Pending>,
            >::empty());
            assert(self.active_limit_orders@.take(i as int) =~= self.active_limit_orders@);
            assert(full.2 =~= order_updates@ + Seq::<LimitOrderUpdate>::empty());
            assert(full.2 =~= order_updates@);
        }
        order_updates
    }
}

/// Replacing an order in place, keeping its id and user id, keeps the
/// user-order-id index in sync.
proof fn lemma_user_index_update_same(pre: Exchange, post: Exchange, i: int)
    requires
        pre.user_index_wf(),
        0 <= i < pre.active_limit_orders@.len(),
        post.active_limit_orders@.len() == pre.active_limit_orders@.len(),
        post.active_limit_orders@[i].user_order_id == pre.active_limit_orders@[i].user_order_id,
        post.active_limit_orders@[i].state.meta.id == pre.active_limit_orders@[i].state.meta.id,
        forall|k: int|
            0 <= k < pre.active_limit_orders@.len() && k != i ==> post.active_limit_orders@[k]
                == pre.active_limit_orders@[k],
        post.lookup_order_nonce_from_user_order_id == pre.lookup_order_nonce_from_user_order_id,
    ensures
        post.user_index_wf(),
{
    let orders0 = pre.active_limit_orders@;
    let orders1 = post.active_limit_orders@;
    let c = user_id_index_contents(pre.lookup_order_nonce_from_user_order_id);
    assert forall|uid: u64| #[trigger] c.dom().contains(uid) implies uid != 0 && exists|k: int|
        0 <= k < orders1.len() && (#[trigger] orders1[k]).user_order_id == uid by {
        let k0 = choose|k0: int|
            0 <= k0 < orders0.len() && (#[trigger] orders0[k0]).user_order_id == uid;
        assert(orders1[k0].user_order_id == uid);
    }
}

/// Whether the mark-to-market equity of the position has fallen below the
/// maintenance requirement: the isolated margin of the position plus its
/// unrealized profit and loss has gone negative.
pub open spec fn spec_maintenance_violated(ms: MarketState, pos: Position, imr: int) -> bool {
    &&& !(pos is Neutral)
    &&& ms.bid@ > 0
    &&& pos.spec_position_margin(imr) + pos.spec_unrealized_pnl(ms.bid@, ms.ask@) < 0
}

/// The market state after an accepted update: the quotes the update
/// carries, the new timestamp, and the step counter advanced.
pub open spec fn spec_market_state_after(ms: MarketState, u: MarketUpdate, ts: i64) -> MarketState {
    let quotes = u.spec_quotes_after(ms.bid@, ms.ask@);
    MarketState {
        bid: QuoteCurrency { m: quotes.0 as i128 },
        ask: QuoteCurrency { m: quotes.1 as i128 },
        current_ts_ns: ts,
        step: (ms.step + 1) as u64,
    }
}

impl Exchange {
    /// Update the exchange state with new market information.
    ///
    /// The timestamp must not go backwards and the update must pass the
    /// price filter, else an error leaves the exchange untouched.  An
    /// accepted update sets the quotes, the time and the step counter; if
    /// the position's isolated margin is then exhausted, a maintenance
    /// margin error is returned without matching.  Otherwise the update's
    /// taker flow is matched against the resting orders in ascending
    /// order-id order, and the produced order updates are returned.
    pub fn update_state(&mut self, timestamp_ns: i64, market_update: MarketUpdate) -> (r: Result<
        Vec<LimitOrderUpdate>,
        Error,
    >)
        requires
            old(self).wf(),
            old(self).in_bounds(),
            market_update.wf(),
        ensures
            final(self).wf(),
            final(self).config == old(self).config,
            final(self).next_order_id == old(self).next_order_id,
            timestamp_ns < old(self).market_state.current_ts_ns ==> r == Err::<
                Vec<LimitOrderUpdate>,
                Error,
            >(
                Error::MarketUpdateError(
                    crate::errors::MarketUpdateError::NonMonotonicTimestamp,
                ),
            ) && *final(self) == *old(self),
            (timestamp_ns >= old(self).market_state.current_ts_ns && market_update.spec_validate(
                old(self).config.contract_spec.price_filter,
            ) is Err) ==> r == Err::<Vec<LimitOrderUpdate>, Error>(
                market_update.spec_validate(old(self).config.contract_spec.price_filter)->Err_0,
            ) && *final(self) == *old(self),
            (timestamp_ns >= old(self).market_state.current_ts_ns && market_update.spec_validate(
                old(self).config.contract_spec.price_filter,
            ) is Ok) ==> {
                &&& final(self).market_state == spec_market_state_after(
                    old(self).market_state,
                    market_update,
                    timestamp_ns,
                )
                &&& if spec_maintenance_violated(
                    final(self).market_state,
                    old(self).position,
                    old(self).spec_imr(),
                ) {
                    &&& r == Err::<Vec<LimitOrderUpdate>, Error>(
                        Error::RiskError(RiskError::MaintenanceMarginViolated),
                    )
                    &&& final(self).position == old(self).position
                    &&& final(self).active_limit_orders@ =~= old(self).active_limit_orders@
                    &&& final(self).transaction_accounting == old(self).transaction_accounting
                    &&& final(self).lookup_order_nonce_from_user_order_id == old(self).lookup_order_nonce_from_user_order_id
                } else {
                    let outcome = spec_match(
                        market_update,
                        old(self).active_limit_orders@,
                        old(self).position,
                        old(self).config.contract_spec.fee_maker@,
                        timestamp_ns,
                    );
                    &&& r is Ok
                    &&& r->Ok_0@ =~= outcome.2
                    &&& final(self).active_limit_orders@ =~= outcome.0
                    &&& final(self).position == outcome.1
                    &&& final(self).spec_balance(LedgerAccount::UserWallet) == old(
                        self,
                    ).spec_balance(LedgerAccount::UserWallet) + old(self).position.spec_position_margin(
                        old(self).spec_imr(),
                    ) - final(self).position.spec_position_margin(old(self).spec_imr()) + old(
                        self,
                    ).spec_balance(LedgerAccount::UserOrderMargin) - final(self).spec_balance(
                        LedgerAccount::UserOrderMargin,
                    ) + outcome.3 - outcome.4
                    &&& final(self).spec_balance(LedgerAccount::Treasury) == old(self).spec_balance(
                        LedgerAccount::Treasury,
                    ) - outcome.3
                    &&& final(self).spec_balance(LedgerAccount::ExchangeFee) == old(
                        self,
                    ).spec_balance(LedgerAccount::ExchangeFee) + outcome.4
                }
            },
            final(self).transaction_accounting.spec_balance_sum() == old(self).transaction_accounting.spec_balance_sum(),
    {
        if timestamp_ns < self.market_state.current_timestamp_ns() {
            return Err(
                Error::MarketUpdateError(crate::errors::MarketUpdateError::NonMonotonicTimestamp),
            );
        }
        if let Err(e) = market_update.validate_market_update(
            &self.config.contract_spec.price_filter,
        ) {
            return Err(e);
        }
        let step = self.market_state.step;
        match &market_update {
            MarketUpdate::Bba { bid, ask } => {
                self.market_state = MarketState {
                    bid: *bid,
                    ask: *ask,
                    current_ts_ns: timestamp_ns,
                    step: step + 1,
                };
            },
            MarketUpdate::Taker(_) => {
                self.market_state = MarketState {
                    bid: self.market_state.bid,
                    ask: self.market_state.ask,
                    current_ts_ns: timestamp_ns,
                    step: step + 1,
                };
            },
            MarketUpdate::Smart(c) => {
                self.market_state = MarketState {
                    bid: c.bba.bid,
                    ask: c.bba.ask,
                    current_ts_ns: timestamp_ns,
                    step: step + 1,
                };
            },
        }
        let is_neutral = match self.position {
            Position::Neutral => true,
            _ => false,
        };
        if !is_neutral && self.market_state.bid.m > 0 {
            let pm = self.transaction_accounting.margin_balance_of(
                LedgerAccount::UserPositionMargin,
            );
            let upnl = self.position.unrealized_pnl(self.market_state.bid, self.market_state.ask);
            proof {
                lemma_abs_mul_le(
                    self.position.spec_qty(),
                    self.market_state.bid@,
                    POS_QTY_LIMIT as int,
                    UNIT_LIMIT as int,
                );
                lemma_abs_mul_le(
                    self.position.spec_qty(),
                    self.market_state.ask@,
                    POS_QTY_LIMIT as int,
                    UNIT_LIMIT as int,
                );
            }
            if pm.m + upnl.m < 0 {
                return Err(Error::RiskError(RiskError::MaintenanceMarginViolated));
            }
        }
        let order_updates = self.check_active_orders(&market_update, timestamp_ns);
        Ok(order_updates)
    }
}

/// Law: exchange-assigned order ids strictly increase across submissions.
/// Every resting order carries an id below `next_order_id`; an accepted
/// submission takes `next_order_id` itself and leaves the counter larger,
/// so later acceptances get strictly larger ids.
pub proof fn lemma_order_id_monotonicity(e: Exchange, order: LimitOrder<NewOrder>)
    requires
        e.wf(),
    ensures
        e.spec_accepted_order(order).state.meta.id == e.next_order_id,
        forall|i: int|
            0 <= i < e.active_limit_orders@.len() ==> (#[trigger] e.active_limit_orders@[i]).state.meta.id
                < e.spec_accepted_order(order).state.meta.id,
{
}

/// Law: ledger conservation.  In every well-formed exchange state the five
/// account balances sum to the starting wallet balance, bit-exact.
pub proof fn lemma_ledger_conservation(e: Exchange)
    requires
        e.wf(),
    ensures
        e.transaction_accounting.spec_balance_sum() == e.config.starting_wallet_balance@,
{
}

/// Law: position-margin agreement.  In every well-formed exchange state the
/// position-margin account holds exactly quantity times entry price times
/// the initial margin requirement of the open position.
pub proof fn lemma_position_margin_agreement(e: Exchange)
    requires
        e.wf(),
    ensures
        e.spec_balance(LedgerAccount::UserPositionMargin) == e.position.spec_position_margin(
            e.spec_imr(),
        ),
{
}

/// Law: order-margin agreement.  In every well-formed exchange state the
/// order-margin account holds exactly the margin the resting limit orders
/// require, netting against the position.
pub proof fn lemma_order_margin_agreement(e: Exchange)
    requires
        e.wf(),
    ensures
        e.spec_balance(LedgerAccount::UserOrderMargin) == spec_order_margin(
            e.active_limit_orders@,
            e.position,
            e.spec_imr(),
        ),
{
}

/// Law: empty-book clearing.  When no limit orders rest in the book, the
/// order-margin account is empty.
pub proof fn lemma_empty_book_clears_order_margin(e: Exchange)
    requires
        e.wf(),
        e.active_limit_orders@.len() == 0,
    ensures
        e.spec_balance(LedgerAccount::UserOrderMargin) == 0,
{
    assert(e.active_limit_orders@ =~= Seq::<LimitOrder<Pending>>::empty());
    crate::order_margin::lemma_empty_book_zero_order_margin(e.position, e.spec_imr());
}

} // verus!
