//! The filters that bound the orders of a symbol.

use crate::types::{Decimal, Price, Quantity};
use vstd::prelude::*;

verus! {

/// `PRICE_FILTER`
#[derive(Debug, Clone)]
pub struct SymbolPriceFilter {
    pub min_price: Price,
    pub max_price: Price,
    pub tick_size: Decimal,
}

/// `PERCENT_PRICE`
#[derive(Debug, Clone)]
pub struct SymbolPercentPriceFilter {
    pub multiplier_up: Decimal,
    pub multiplier_down: Decimal,
    pub avg_price_mins: u32,
}

/// `PERCENT_PRICE_BY_SIDE`
#[derive(Debug, Clone)]
pub struct SymbolPercentPriceBySideFilter {
    pub bid_multiplier_up: Decimal,
    pub bid_multiplier_down: Decimal,
    pub ask_multiplier_up: Decimal,
    pub ask_multiplier_down: Decimal,
    pub avg_price_mins: u32,
}

/// `LOT_SIZE`
#[derive(Debug, Clone)]
pub struct SymbolLotSizeFilter {
    pub min_qty: Quantity,
    pub max_qty: Quantity,
    pub step_size: Decimal,
}

/// `MIN_NOTIONAL`
#[derive(Debug, Clone)]
pub struct SymbolMinNotionalFilter {
    pub min_notional: Quantity,
    pub apply_to_market: bool,
    pub avg_price_mins: u32,
}

/// `NOTIONAL`
#[derive(Debug, Clone)]
pub struct SymbolNotionalFilter {
    pub min_notional: Quantity,
    pub apply_min_to_market: bool,
    pub max_notional: Quantity,
    pub apply_max_to_market: bool,
    pub avg_price_mins: u32,
}

/// `ICEBERG_PARTS`
#[derive(Debug, Clone)]
pub struct SymbolIcebergPartsfilter {
    pub limit: u32,
}

/// `MARKET_LOT_SIZE`
#[derive(Debug, Clone)]
pub struct SymbolMarketLotSizeFilter {
    pub min_qty: Quantity,
    pub max_qty: Quantity,
    pub step_size: Decimal,
}

/// `MAX_NUM_ORDERS`
#[derive(Debug, Clone)]
pub struct SymbolMaxNumOrdersFilter {
    pub max_num_orders: i64,
}

/// `MAX_NUM_ALGO_ORDERS`
#[derive(Debug, Clone)]
pub struct SymbolMaxNumAlgoOrdersFilter {
    pub max_num_algo_orders: u32,
}

/// `MAX_NUM_ICEBERG_ORDERS`
#[derive(Debug, Clone)]
pub struct SymbolMaxNumIcebergOrdersFilter {
    pub max_num_iceberg_orders: u32,
}

/// `MAX_POSITION`
#[derive(Debug, Clone)]
pub struct SymbolMaxPositionFilter {
    pub max_position: Decimal,
}

/// `TRAILING_DELTA`
#[derive(Debug, Clone)]
pub struct SymbolTrailingDeltaFilter {
    pub min_trailing_above_delta: i32,
    pub max_trailing_above_delta: i32,
    pub min_trailing_below_delta: i32,
    pub max_trailing_below_delta: i32,
}

/// A filter, by its type.
#[derive(Debug, Clone)]
pub enum SymbolFilter {
    PriceFilter(SymbolPriceFilter),
    PercentPrice(SymbolPercentPriceFilter),
    PercentPriceBySide(SymbolPercentPriceBySideFilter),
    LotSize(SymbolLotSizeFilter),
    MinNotional(SymbolMinNotionalFilter),
    Notional(SymbolNotionalFilter),
    IcebergParts(SymbolIcebergPartsfilter),
    MarketLotSize(SymbolMarketLotSizeFilter),
    MaxNumOrders(SymbolMaxNumOrdersFilter),
    MaxNumAlgoOrders(SymbolMaxNumAlgoOrdersFilter),
    MaxNumIcebergOrders(SymbolMaxNumIcebergOrdersFilter),
    MaxPosition(SymbolMaxPositionFilter),
    TrailingDelta(SymbolTrailingDeltaFilter),
}

} // verus!
