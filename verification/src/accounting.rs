//! Double-entry transaction accounting over a small closed set of accounts.
//!
//! Five well-known accounts carry all funds: the user's wallet, the user's
//! position margin, the user's order margin, the exchange fee account and the
//! treasury.  Every state change of the exchange is a transfer between two of
//! them, so the sum of all net balances is an invariant of the system.

use vstd::prelude::*;
use crate::currency::QuoteCurrency;

verus! {

/// Bound on the ledger's posted debits and credits at the entry of any
/// operation; transfers within one operation stay far below `i128` range.
pub const LEDGER_POSTS_LIMIT: i128 = 20_000_000_000_000_000_000_000_000_000_000_000_000;

/// The closed set of ledger accounts.
#[derive(Debug, Clone, Copy, PartialEq, Eq, Structural)]
pub enum LedgerAccount {
    /// The freely available funds of the user.
    UserWallet,
    /// Collateral reserved for the open position.
    UserPositionMargin,
    /// Collateral reserved for resting limit orders.
    UserOrderMargin,
    /// Trading fees collected by the exchange.
    ExchangeFee,
    /// The counterparty of every realized profit or loss.
    Treasury,
}

/// A T-account: keeps track of debits and credits posted to one account.
/// Its net balance is debits minus credits.
#[derive(Debug, Clone, Copy, PartialEq, Eq, Structural)]
pub struct TAccount {
    pub debits_posted: QuoteCurrency,
    pub credits_posted: QuoteCurrency,
}

impl TAccount {
    /// The net balance of the account: debits minus credits.
    pub open spec fn spec_net(self) -> int {
        self.debits_posted@ - self.credits_posted@
    }

    /// Post a debit to the account.
    pub fn post_debit(&mut self, amount: QuoteCurrency)
        requires
            old(self).debits_posted@ + amount@ <= i128::MAX,
            old(self).debits_posted@ + amount@ >= i128::MIN,
        ensures
            final(self).debits_posted@ == old(self).debits_posted@ + amount@,
            final(self).credits_posted == old(self).credits_posted,
    {
        self.debits_posted = self.debits_posted.plus(amount);
    }

    /// Post a credit to the account.
    pub fn post_credit(&mut self, amount: QuoteCurrency)
        requires
            old(self).credits_posted@ + amount@ <= i128::MAX,
            old(self).credits_posted@ + amount@ >= i128::MIN,
        ensures
            final(self).credits_posted@ == old(self).credits_posted@ + amount@,
            final(self).debits_posted == old(self).debits_posted,
    {
        self.credits_posted = self.credits_posted.plus(amount);
    }

    /// The net balance of the account: debits minus credits.
    pub fn net_balance(&self) -> (r: QuoteCurrency)
        requires
            i128::MIN <= self.spec_net() <= i128::MAX,
        ensures
            r@ == self.spec_net(),
    {
        self.debits_posted.minus(self.credits_posted)
    }
}

/// A transfer of a strictly positive amount from one account to another.
/// The `from` account's net balance increases, the `to` account's decreases.
#[derive(Debug, Clone, Copy, PartialEq, Eq, Structural)]
pub struct Transaction {
    pub from_account: LedgerAccount,
    pub to_account: LedgerAccount,
    pub amount: QuoteCurrency,
}

impl Transaction {
    /// Create a new transfer; the amount must be strictly positive and the
    /// two accounts distinct.
    pub fn new(from_account: LedgerAccount, to_account: LedgerAccount, amount: QuoteCurrency) -> (r:
        Self)
        requires
            amount@ > 0,
            from_account != to_account,
        ensures
            r == (Transaction { from_account, to_account, amount }),
    {
        Self { from_account, to_account, amount }
    }
}

/// The in-memory double-entry ledger of the exchange.
#[derive(Debug, Clone, Copy, PartialEq, Eq, Structural)]
pub struct TransactionAccounting {
    pub user_wallet: TAccount,
    pub user_position_margin: TAccount,
    pub user_order_margin: TAccount,
    pub exchange_fee: TAccount,
    pub treasury: TAccount,
}

impl TransactionAccounting {
    /// The net balance of the given account.
    pub open spec fn spec_balance(self, account: LedgerAccount) -> int {
        match account {
            LedgerAccount::UserWallet => self.user_wallet.spec_net(),
            LedgerAccount::UserPositionMargin => self.user_position_margin.spec_net(),
            LedgerAccount::UserOrderMargin => self.user_order_margin.spec_net(),
            LedgerAccount::ExchangeFee => self.exchange_fee.spec_net(),
            LedgerAccount::Treasury => self.treasury.spec_net(),
        }
    }

    /// The sum of all net balances; constant over every transfer.
    pub open spec fn spec_balance_sum(self) -> int {
        self.user_wallet.spec_net() + self.user_position_margin.spec_net()
            + self.user_order_margin.spec_net() + self.exchange_fee.spec_net()
            + self.treasury.spec_net()
    }

    /// All debits and credits are small enough that further transfers cannot
    /// overflow the mantissa type.
    pub open spec fn spec_posts_bounded(self, bound: int) -> bool {
        &&& vstd::math::abs(self.user_wallet.debits_posted@) <= bound
        &&& vstd::math::abs(self.user_wallet.credits_posted@) <= bound
        &&& vstd::math::abs(self.user_position_margin.debits_posted@) <= bound
        &&& vstd::math::abs(self.user_position_margin.credits_posted@) <= bound
        &&& vstd::math::abs(self.user_order_margin.debits_posted@) <= bound
        &&& vstd::math::abs(self.user_order_margin.credits_posted@) <= bound
        &&& vstd::math::abs(self.exchange_fee.debits_posted@) <= bound
        &&& vstd::math::abs(self.exchange_fee.credits_posted@) <= bound
        &&& vstd::math::abs(self.treasury.debits_posted@) <= bound
        &&& vstd::math::abs(self.treasury.credits_posted@) <= bound
    }

    /// Create a ledger whose user wallet holds the starting balance and all
    /// other accounts are empty.
    pub fn new(starting_balance: QuoteCurrency) -> (r: Self)
        requires
            starting_balance@ >= 0,
        ensures
            r.spec_balance(LedgerAccount::UserWallet) == starting_balance@,
            r.spec_balance(LedgerAccount::UserPositionMargin) == 0,
            r.spec_balance(LedgerAccount::UserOrderMargin) == 0,
            r.spec_balance(LedgerAccount::ExchangeFee) == 0,
            r.spec_balance(LedgerAccount::Treasury) == 0,
            r.spec_balance_sum() == starting_balance@,
            r.spec_posts_bounded(starting_balance@ as int),
    {
        let zero = QuoteCurrency::new_zero();
        let empty = TAccount { debits_posted: zero, credits_posted: zero };
        TransactionAccounting {
            user_wallet: TAccount { debits_posted: starting_balance, credits_posted: zero },
            user_position_margin: empty,
            user_order_margin: empty,
            exchange_fee: empty,
            treasury: empty,
        }
    }

    /// The net balance of the given account, as a value.
    pub fn margin_balance_of(&self, account: LedgerAccount) -> (r: QuoteCurrency)
        requires
            i128::MIN <= self.spec_balance(account) <= i128::MAX,
        ensures
            r@ == self.spec_balance(account),
    {
        match account {
            LedgerAccount::UserWallet => self.user_wallet.net_balance(),
            LedgerAccount::UserPositionMargin => self.user_position_margin.net_balance(),
            LedgerAccount::UserOrderMargin => self.user_order_margin.net_balance(),
            LedgerAccount::ExchangeFee => self.exchange_fee.net_balance(),
            LedgerAccount::Treasury => self.treasury.net_balance(),
        }
    }

    /// Perform a transfer: debit the `from` account and credit the `to`
    /// account by the transaction amount.  Every other account, and the sum
    /// of all net balances, is unchanged.
    pub fn create_margin_transfer(&mut self, transaction: Transaction)
        requires
            transaction.amount@ > 0,
            transaction.from_account != transaction.to_account,
            old(self).spec_posts_bounded(i128::MAX - transaction.amount@),
        ensures
            final(self).spec_balance(transaction.from_account) == old(self).spec_balance(
                transaction.from_account,
            ) + transaction.amount@,
            final(self).spec_balance(transaction.to_account) == old(self).spec_balance(
                transaction.to_account,
            ) - transaction.amount@,
            forall|a: LedgerAccount|
                a != transaction.from_account && a != transaction.to_account
                    ==> final(self).spec_balance(a) == old(self).spec_balance(a),
            final(self).spec_balance_sum() == old(self).spec_balance_sum(),
            forall|b: int|
                old(self).spec_posts_bounded(b) ==> final(self).spec_posts_bounded(
                    b + transaction.amount@,
                ),
    {
        let amount = transaction.amount;
        match transaction.from_account {
            LedgerAccount::UserWallet => self.user_wallet.post_debit(amount),
            LedgerAccount::UserPositionMargin => self.user_position_margin.post_debit(amount),
            LedgerAccount::UserOrderMargin => self.user_order_margin.post_debit(amount),
            LedgerAccount::ExchangeFee => self.exchange_fee.post_debit(amount),
            LedgerAccount::Treasury => self.treasury.post_debit(amount),
        }
        match transaction.to_account {
            LedgerAccount::UserWallet => self.user_wallet.post_credit(amount),
            LedgerAccount::UserPositionMargin => self.user_position_margin.post_credit(amount),
            LedgerAccount::UserOrderMargin => self.user_order_margin.post_credit(amount),
            LedgerAccount::ExchangeFee => self.exchange_fee.post_credit(amount),
            LedgerAccount::Treasury => self.treasury.post_credit(amount),
        }
    }
}

/// The three balances of the user account.
#[derive(Debug, Clone, Copy, PartialEq, Eq, Structural)]
pub struct UserBalances {
    /// The freely available wallet balance of the user.
    pub available_wallet_balance: QuoteCurrency,
    /// The margin reserved for the open position.
    pub position_margin: QuoteCurrency,
    /// The margin reserved for the resting limit orders.
    pub order_margin: QuoteCurrency,
}

} // verus!
