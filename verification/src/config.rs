//! The construction-time configuration of the exchange.

use vstd::prelude::*;
use crate::currency::{Fee, Fraction, QuoteCurrency, BALANCE_LIMIT, SCALE};
use crate::errors::ConfigError;
use crate::order_margin::MAX_OPEN_ORDERS_CAP;
use crate::price_filter::PriceFilter;
use crate::quantity_filter::QuantityFilter;

verus! {

/// The immutable properties of the traded contract: margin requirement,
/// price and quantity rules, and fees.
#[derive(Debug, Clone, Copy, PartialEq, Eq, Structural)]
pub struct ContractSpecification {
    /// The fraction of notional that must be reserved to hold a position;
    /// leverage is its inverse.  Lies in (0, 1].
    pub init_margin_req: Fraction,
    /// The price rules of the market.
    pub price_filter: PriceFilter,
    /// The quantity rules of the market.
    pub quantity_filter: QuantityFilter,
    /// The fee rate of passive (maker) orders; negative for a rebate.
    pub fee_maker: Fee,
    /// The fee rate of aggressive (taker) orders.
    pub fee_taker: Fee,
}

impl ContractSpecification {
    /// The margin requirement lies in (0, 1], the filters are well-formed
    /// and the fee magnitudes are at most one.
    pub open spec fn wf(self) -> bool {
        &&& 0 < self.init_margin_req@ <= SCALE
        &&& self.price_filter.wf()
        &&& self.quantity_filter.wf()
        &&& -SCALE <= self.fee_maker@ <= SCALE
        &&& -SCALE <= self.fee_taker@ <= SCALE
    }

    /// Create a new contract specification; the initial margin requirement
    /// must lie in (0, 1].
    pub fn new(
        init_margin_req: Fraction,
        price_filter: PriceFilter,
        quantity_filter: QuantityFilter,
        fee_maker: Fee,
        fee_taker: Fee,
    ) -> (r: Result<Self, ConfigError>)
        requires
            price_filter.wf(),
            quantity_filter.wf(),
            -SCALE <= fee_maker@ <= SCALE,
            -SCALE <= fee_taker@ <= SCALE,
        ensures
            r == (if 0 < init_margin_req@ <= SCALE {
                Ok::<Self, ConfigError>(
                    ContractSpecification {
                        init_margin_req,
                        price_filter,
                        quantity_filter,
                        fee_maker,
                        fee_taker,
                    },
                )
            } else {
                Err::<Self, ConfigError>(ConfigError::InvalidInitMarginReq)
            }),
            r matches Ok(s) ==> s.wf(),
    {
        if init_margin_req.m <= 0 || init_margin_req.m > SCALE {
            return Err(ConfigError::InvalidInitMarginReq);
        }
        Ok(ContractSpecification { init_margin_req, price_filter, quantity_filter, fee_maker, fee_taker })
    }

    /// The initial margin requirement.
    pub fn init_margin_req(&self) -> (r: Fraction)
        ensures
            r == self.init_margin_req,
    {
        self.init_margin_req
    }

    /// The price rules of the market.
    pub fn price_filter(&self) -> (r: &PriceFilter)
        ensures
            r == self.price_filter,
    {
        &self.price_filter
    }

    /// The quantity rules of the market.
    pub fn quantity_filter(&self) -> (r: &QuantityFilter)
        ensures
            r == self.quantity_filter,
    {
        &self.quantity_filter
    }
}

/// Define the exchange configuration.
#[derive(Debug, Clone, Copy, PartialEq, Eq, Structural)]
pub struct Config {
    /// The starting balance of the account, in the margin currency.
    pub starting_wallet_balance: QuoteCurrency,
    /// The most limit orders that may rest in the book at once.
    pub max_num_open_orders: u64,
    /// The properties of the traded contract.
    pub contract_spec: ContractSpecification,
    /// How often, in seconds, an observer would sample the account returns.
    pub sample_returns_every_n_seconds: u64,
}

impl Config {
    /// The starting balance is positive and bounded, the cap on open orders
    /// positive and within the engine's limit, and the contract
    /// specification well-formed.
    pub open spec fn wf(self) -> bool {
        &&& 0 < self.starting_wallet_balance@ <= BALANCE_LIMIT
        &&& 0 < self.max_num_open_orders <= MAX_OPEN_ORDERS_CAP
        &&& self.contract_spec.wf()
        &&& 0 < self.sample_returns_every_n_seconds
    }

    /// Create a new configuration; the starting wallet balance must be
    /// positive.
    pub fn new(
        starting_wallet_balance: QuoteCurrency,
        max_num_open_orders: u64,
        contract_spec: ContractSpecification,
        sample_returns_every_n_seconds: u64,
    ) -> (r: Result<Self, ConfigError>)
        requires
            starting_wallet_balance@ <= BALANCE_LIMIT,
            0 < max_num_open_orders <= MAX_OPEN_ORDERS_CAP,
            contract_spec.wf(),
            0 < sample_returns_every_n_seconds,
        ensures
            r == (if starting_wallet_balance@ > 0 {
                Ok::<Self, ConfigError>(
                    Config {
                        starting_wallet_balance,
                        max_num_open_orders,
                        contract_spec,
                        sample_returns_every_n_seconds,
                    },
                )
            } else {
                Err::<Self, ConfigError>(ConfigError::InvalidStartingBalance)
            }),
            r matches Ok(c) ==> c.wf(),
    {
        if starting_wallet_balance.m <= 0 {
            return Err(ConfigError::InvalidStartingBalance);
        }
        Ok(Config {
            starting_wallet_balance,
            max_num_open_orders,
            contract_spec,
            sample_returns_every_n_seconds,
        })
    }

    /// The starting balance of the account.
    pub fn starting_balance(&self) -> (r: QuoteCurrency)
        ensures
            r == self.starting_wallet_balance,
    {
        self.starting_wallet_balance
    }

    /// The properties of the traded contract.
    pub fn contract_spec(&self) -> (r: &ContractSpecification)
        ensures
            r == self.contract_spec,
    {
        &self.contract_spec
    }

    /// The fee rate of passive (maker) orders.
    pub fn fee_maker(&self) -> (r: Fee)
        ensures
            r == self.contract_spec.fee_maker,
    {
        self.contract_spec.fee_maker
    }

    /// The fee rate of aggressive (taker) orders.
    pub fn fee_taker(&self) -> (r: Fee)
        ensures
            r == self.contract_spec.fee_taker,
    {
        self.contract_spec.fee_taker
    }
}

} // verus!
