//! The names under which the exchange's values travel.

pub use super::account::{
    ApiRestrictions, Balance, CommissionDetails, CommissionRates, DiscountDetails, SpotAccount,
    SpotCommission, UserAsset,
};
pub use super::market::{ExchangeInfo, RateLimit, ServerPing, ServerTime, SymbolInfo, SymbolPrice};
pub use super::spot::{
    OrderFill, OrderResponseFull, OrderSide, OrderStatus, OrderType, SelfTradePreventionMode,
    TimeInForce,
};
use vstd::prelude::*;

verus! {

pub type Price = String;

pub type Asset = String;

pub type Symbol = String;

pub type Decimal = String;

pub type Quantity = String;

pub type Commission = Decimal;

} // verus!
