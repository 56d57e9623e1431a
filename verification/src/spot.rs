//! Spot trading: orders and trades of the account.

use crate::http::address::Pair;
use crate::http::client::{Client, ClientResult};
use crate::http::laws::{lemma_one_more, one_more};
use crate::http::query::{optional_i64, optional_u128, optional_u16, optional_u8, Params};
use crate::http::request::{agrees, Method, RequestBuilder};
use crate::http::signature::{signature, TAG_BYTES};
use crate::text::decimal;
use crate::types::{Asset, Decimal, Price, Quantity, Symbol};
use vstd::prelude::*;

verus! {

/// The parameters of a market order, by the quantity's name.
pub open spec fn spot_market_order_params(
    symbol: Seq<char>,
    side: OrderSide,
    quantity_name: Seq<char>,
    quantity: Seq<char>,
    recv_window: Option<u8>,
    timestamp: u128,
) -> Seq<Pair> {
    seq![
        ("symbol"@, symbol),
        ("side"@, side.text()),
        ("type"@, "MARKET"@),
        ("newOrderRespType"@, "FULL"@),
        (quantity_name, quantity),
    ] + optional_u8("recvWindow"@, recv_window) + seq![("timestamp"@, decimal(timestamp as int))]
}

/// The parameters of `spot_order_info`.
pub open spec fn spot_order_info_params(
    symbol: Seq<char>,
    id: i64,
    recv_window: Option<u8>,
    timestamp: u128,
) -> Seq<Pair> {
    optional_u8("recvWindow"@, recv_window) + seq![
        ("symbol"@, symbol),
        ("orderId"@, decimal(id as int)),
        ("timestamp"@, decimal(timestamp as int)),
    ]
}

/// The parameters of `spot_all_order_info`.
pub open spec fn spot_all_order_info_params(
    symbol: Seq<char>,
    id: Option<i64>,
    start_time: Option<u128>,
    end_time: Option<u128>,
    limit: Option<u16>,
    recv_window: Option<u8>,
    timestamp: u128,
) -> Seq<Pair> {
    optional_i64("orderId"@, id) + optional_u128("startTime"@, start_time) + optional_u128(
        "endTime"@,
        end_time,
    ) + optional_u16("limit"@, limit) + optional_u8("recvWindow"@, recv_window) + seq![
        ("symbol"@, symbol),
        ("timestamp"@, decimal(timestamp as int)),
    ]
}

/// The parameters of `spot_trades`.
pub open spec fn spot_trades_params(
    symbol: Seq<char>,
    id: Option<i64>,
    start_time: Option<u128>,
    end_time: Option<u128>,
    from_id: Option<i64>,
    limit: Option<u16>,
    recv_window: Option<u8>,
    timestamp: u128,
) -> Seq<Pair> {
    optional_i64("orderId"@, id) + optional_u128("startTime"@, start_time) + optional_u128(
        "endTime"@,
        end_time,
    ) + optional_i64("fromId"@, from_id) + optional_u16("limit"@, limit) + optional_u8(
        "recvWindow"@,
        recv_window,
    ) + seq![("symbol"@, symbol), ("timestamp"@, decimal(timestamp as int))]
}

impl Client {
    /// A market order that spends `quote_quantity` of the quote asset.
    pub fn spot_market_order_with_quote(
        &self,
        symbol: &Symbol,
        side: OrderSide,
        quote_quantity: &Quantity,
        recv_window: Option<u8>,
        timestamp: u128,
    ) -> (r: ClientResult<RequestBuilder>)
        ensures
            agrees(
                r,
                self.signed_outcome(
                    Method::Post,
                    "/api/v3/order"@,
                    spot_market_order_params(
                        symbol@,
                        side,
                        "quoteOrderQty"@,
                        quote_quantity@,
                        recv_window,
                        timestamp,
                    ),
                ),
            ),
            r is Ok ==> signature(
                self.spec_secret().spec_secret_key()->0,
                self.target("/api/v3/order"@, spot_market_order_params(symbol@, side, "quoteOrderQty"@, quote_quantity@, recv_window, timestamp))->0.query_text(),
            ).len() == 2 * TAG_BYTES,
    {
        let mut params = Params::new();
        params.append_pair("symbol", symbol.as_str());
        params.append_pair("side", side.as_str());
        params.append_pair("type", "MARKET");
        params.append_pair("newOrderRespType", "FULL");
        params.append_pair("quoteOrderQty", quote_quantity.as_str());
        params.append_optional_u8("recvWindow", recv_window);
        params.append_u128("timestamp", timestamp);
        assert(params@ =~= spot_market_order_params(
            symbol@,
            side,
            "quoteOrderQty"@,
            quote_quantity@,
            recv_window,
            timestamp,
        ));
        self.signed(Method::Post, "/api/v3/order", &params)
    }

    /// A market order for `base_quantity` of the base asset.
    pub fn spot_market_order_with_base(
        &self,
        symbol: &Symbol,
        side: OrderSide,
        base_quantity: &Quantity,
        recv_window: Option<u8>,
        timestamp: u128,
    ) -> (r: ClientResult<RequestBuilder>)
        ensures
            agrees(
                r,
                self.signed_outcome(
                    Method::Post,
                    "/api/v3/order"@,
                    spot_market_order_params(
                        symbol@,
                        side,
                        "quantity"@,
                        base_quantity@,
                        recv_window,
                        timestamp,
                    ),
                ),
            ),
            r is Ok ==> signature(
                self.spec_secret().spec_secret_key()->0,
                self.target("/api/v3/order"@, spot_market_order_params(symbol@, side, "quantity"@, base_quantity@, recv_window, timestamp))->0.query_text(),
            ).len() == 2 * TAG_BYTES,
    {
        let mut params = Params::new();
        params.append_pair("symbol", symbol.as_str());
        params.append_pair("side", side.as_str());
        params.append_pair("type", "MARKET");
        params.append_pair("newOrderRespType", "FULL");
        params.append_pair("quantity", base_quantity.as_str());
        params.append_optional_u8("recvWindow", recv_window);
        params.append_u128("timestamp", timestamp);
        assert(params@ =~= spot_market_order_params(
            symbol@,
            side,
            "quantity"@,
            base_quantity@,
            recv_window,
            timestamp,
        ));
        self.signed(Method::Post, "/api/v3/order", &params)
    }

    /// The state of one order.
    pub fn spot_order_info(
        &self,
        symbol: &Symbol,
        id: i64,
        recv_window: Option<u8>,
        timestamp: u128,
    ) -> (r: ClientResult<RequestBuilder>)
        ensures
            agrees(
                r,
                self.signed_outcome(
                    Method::Get,
                    "/api/v3/order"@,
                    spot_order_info_params(symbol@, id, recv_window, timestamp),
                ),
            ),
            r is Ok ==> signature(
                self.spec_secret().spec_secret_key()->0,
                self.target("/api/v3/order"@, spot_order_info_params(symbol@, id, recv_window, timestamp))->0.query_text(),
            ).len() == 2 * TAG_BYTES,
    {
        let mut params = Params::new();
        params.append_optional_u8("recvWindow", recv_window);
        params.append_pair("symbol", symbol.as_str());
        params.append_i64("orderId", id);
        params.append_u128("timestamp", timestamp);
        assert(params@ =~= spot_order_info_params(symbol@, id, recv_window, timestamp));
        self.signed(Method::Get, "/api/v3/order", &params)
    }

    /// The orders of a symbol, open or not.
    pub fn spot_all_order_info(
        &self,
        symbol: &Symbol,
        id: Option<i64>,
        start_time: Option<u128>,
        end_time: Option<u128>,
        limit: Option<u16>,
        recv_window: Option<u8>,
        timestamp: u128,
    ) -> (r: ClientResult<RequestBuilder>)
        ensures
            agrees(
                r,
                self.signed_outcome(
                    Method::Get,
                    "/api/v3/allOrders"@,
                    spot_all_order_info_params(
                        symbol@,
                        id,
                        start_time,
                        end_time,
                        limit,
                        recv_window,
                        timestamp,
                    ),
                ),
            ),
            r is Ok ==> signature(
                self.spec_secret().spec_secret_key()->0,
                self.target("/api/v3/allOrders"@, spot_all_order_info_params(symbol@, id, start_time, end_time, limit, recv_window, timestamp))->0.query_text(),
            ).len() == 2 * TAG_BYTES,
    {
        let mut params = Params::new();
        params.append_optional_i64("orderId", id);
        params.append_optional_u128("startTime", start_time);
        params.append_optional_u128("endTime", end_time);
        params.append_optional_u16("limit", limit);
        params.append_optional_u8("recvWindow", recv_window);
        params.append_pair("symbol", symbol.as_str());
        params.append_u128("timestamp", timestamp);
        assert(params@ =~= spot_all_order_info_params(
            symbol@,
            id,
            start_time,
            end_time,
            limit,
            recv_window,
            timestamp,
        ));
        self.signed(Method::Get, "/api/v3/allOrders", &params)
    }

    /// The trades of one order.
    pub fn spot_trade(&self, symbol: &Symbol, id: i64, recv_window: Option<u8>, timestamp: u128) -> (r:
        ClientResult<RequestBuilder>)
        ensures
            agrees(
                r,
                self.signed_outcome(
                    Method::Get,
                    "/api/v3/myTrades"@,
                    spot_trades_params(
                        symbol@,
                        Some(id),
                        None,
                        None,
                        None,
                        None,
                        recv_window,
                        timestamp,
                    ),
                ),
            ),
            r is Ok ==> signature(
                self.spec_secret().spec_secret_key()->0,
                self.target("/api/v3/myTrades"@, spot_trades_params(symbol@, Some(id), None, None, None, None, recv_window, timestamp))->0.query_text(),
            ).len() == 2 * TAG_BYTES,
    {
        self.spot_trades(symbol, Some(id), None, None, None, None, recv_window, timestamp)
    }

    /// The trades of a symbol.
    pub fn spot_trades(
        &self,
        symbol: &Symbol,
        id: Option<i64>,
        start_time: Option<u128>,
        end_time: Option<u128>,
        from_id: Option<i64>,
        limit: Option<u16>,
        recv_window: Option<u8>,
        timestamp: u128,
    ) -> (r: ClientResult<RequestBuilder>)
        ensures
            agrees(
                r,
                self.signed_outcome(
                    Method::Get,
                    "/api/v3/myTrades"@,
                    spot_trades_params(
                        symbol@,
                        id,
                        start_time,
                        end_time,
                        from_id,
                        limit,
                        recv_window,
                        timestamp,
                    ),
                ),
            ),
            r is Ok ==> signature(
                self.spec_secret().spec_secret_key()->0,
                self.target("/api/v3/myTrades"@, spot_trades_params(symbol@, id, start_time, end_time, from_id, limit, recv_window, timestamp))->0.query_text(),
            ).len() == 2 * TAG_BYTES,
    {
        let mut params = Params::new();
        params.append_optional_i64("orderId", id);
        params.append_optional_u128("startTime", start_time);
        params.append_optional_u128("endTime", end_time);
        params.append_optional_i64("fromId", from_id);
        params.append_optional_u16("limit", limit);
        params.append_optional_u8("recvWindow", recv_window);
        params.append_pair("symbol", symbol.as_str());
        params.append_u128("timestamp", timestamp);
        assert(params@ =~= spot_trades_params(
            symbol@,
            id,
            start_time,
            end_time,
            from_id,
            limit,
            recv_window,
            timestamp,
        ));
        self.signed(Method::Get, "/api/v3/myTrades", &params)
    }
}

#[derive(Debug, Clone)]
pub struct OrderInfo {
    pub symbol: Symbol,
    pub order_id: i64,
    pub order_list_id: i64,
    pub client_order_id: String,
    pub price: Price,
    pub orig_qty: Quantity,
    pub executed_qty: Quantity,
    pub cummulative_quote_qty: Quantity,
    pub status: OrderStatus,
    pub time_in_force: String,
    pub order_type: OrderType,
    pub side: OrderSide,
    pub stop_price: Price,
    pub iceberg_qty: String,
    pub time: u128,
    pub update_time: u128,
    pub is_working: bool,
    pub working_time: u128,
    pub orig_quote_order_qty: Quantity,
    pub self_trade_prevention_mode: String,
}

#[derive(Debug, Clone, Copy)]
pub enum OrderSide {
    Buy,
    Sell,
}

impl OrderSide {
    /// The side as the exchange writes it.
    pub open spec fn text(self) -> Seq<char> {
        match self {
            OrderSide::Buy => "BUY"@,
            OrderSide::Sell => "SELL"@,
        }
    }

    /// The side as the exchange writes it: `BUY` or `SELL`.
    pub fn as_str(&self) -> (s: &str)
        ensures
            s@ == self.text(),
    {
        match self {
            Self::Buy => "BUY",
            Self::Sell => "SELL",
        }
    }
}

#[derive(Debug, Clone)]
pub enum SelfTradePreventionMode {
    /// Self trades are not prevented.
    Off,
    ExpireTaker,
    ExpireMaker,
    ExpireBoth,
}

#[derive(Debug, Clone, Copy)]
pub enum OrderStatus {
    New,
    PartiallyFilled,
    Filled,
    Canceled,
    PendingCancel,
    Rejected,
    Expired,
    ExpiredInMatch,
}

#[derive(Debug, Clone, Copy)]
pub enum TimeInForce {
    Gtc,
    Ioc,
    Fok,
}

#[derive(Debug, Clone, Copy)]
pub enum OrderType {
    Limit,
    Market,
    StopLoss,
    StopLossLimit,
    TakeProfit,
    TakeProfitLimit,
}

#[derive(Debug, Clone)]
pub struct OrderFill {
    pub price: Price,
    pub qty: Quantity,
    pub commission: Quantity,
    pub commission_asset: Symbol,
    pub trade_id: i64,
}

#[derive(Debug, Clone)]
pub struct OrderResponseFull {
    pub symbol: Symbol,
    pub order_id: i64,
    pub order_list_id: i64,
    pub client_order_id: String,
    pub transact_time: u128,
    pub price: Price,
    pub orig_qty: Quantity,
    pub executed_qty: Quantity,
    pub cummulative_quote_qty: Quantity,
    pub status: OrderStatus,
    pub time_in_force: TimeInForce,
    pub order_type: OrderType,
    pub side: OrderSide,
    pub working_time: u128,
    pub self_trade_prevention_mode: SelfTradePreventionMode,
    pub fills: Vec<OrderFill>,
}

#[derive(Debug, Clone)]
pub struct Trade {
    pub symbol: Symbol,
    pub id: i64,
    pub price: Price,
    pub qty: Quantity,
    pub commission: Decimal,
    pub time: u128,
    pub order_id: u64,
    pub order_list_id: i64,
    pub quote_qty: Quantity,
    pub commission_asset: Asset,
    pub is_buyer: bool,
    pub is_maker: bool,
    pub is_best_match: bool,
}

/// Each optional argument of `spot_trades` stands for one pair of its own: with
/// it the parameters are those without it and that pair among them, so that
/// the query without it is strictly shorter and holds nothing in its place.
pub proof fn law_spot_trades_optionals(
    symbol: Seq<char>,
    id: Option<i64>,
    start_time: Option<u128>,
    end_time: Option<u128>,
    from_id: Option<i64>,
    limit: Option<u16>,
    recv_window: Option<u8>,
    timestamp: u128,
)
    ensures
        id is Some ==> one_more(
            spot_trades_params(symbol, None, start_time, end_time, from_id, limit, recv_window, timestamp),
            spot_trades_params(symbol, id, start_time, end_time, from_id, limit, recv_window, timestamp),
            "orderId"@,
        ),
        start_time is Some ==> one_more(
            spot_trades_params(symbol, id, None, end_time, from_id, limit, recv_window, timestamp),
            spot_trades_params(symbol, id, start_time, end_time, from_id, limit, recv_window, timestamp),
            "startTime"@,
        ),
        end_time is Some ==> one_more(
            spot_trades_params(symbol, id, start_time, None, from_id, limit, recv_window, timestamp),
            spot_trades_params(symbol, id, start_time, end_time, from_id, limit, recv_window, timestamp),
            "endTime"@,
        ),
        from_id is Some ==> one_more(
            spot_trades_params(symbol, id, start_time, end_time, None, limit, recv_window, timestamp),
            spot_trades_params(symbol, id, start_time, end_time, from_id, limit, recv_window, timestamp),
            "fromId"@,
        ),
        limit is Some ==> one_more(
            spot_trades_params(symbol, id, start_time, end_time, from_id, None, recv_window, timestamp),
            spot_trades_params(symbol, id, start_time, end_time, from_id, limit, recv_window, timestamp),
            "limit"@,
        ),
        recv_window is Some ==> one_more(
            spot_trades_params(symbol, id, start_time, end_time, from_id, limit, None, timestamp),
            spot_trades_params(symbol, id, start_time, end_time, from_id, limit, recv_window, timestamp),
            "recvWindow"@,
        ),
{
    if id is Some {
        let v = id->0;
        let pair = ("orderId"@, decimal(v as int));
        let p1 = optional_u128("startTime"@, start_time);
        let p2 = optional_u128("endTime"@, end_time);
        let p3 = optional_i64("fromId"@, from_id);
        let p4 = optional_u16("limit"@, limit);
        let p5 = optional_u8("recvWindow"@, recv_window);
        let p6 = seq![("symbol"@, symbol), ("timestamp"@, decimal(timestamp as int))];
        let here = optional_i64("orderId"@, id);
        let gone = optional_i64("orderId"@, None);
        let before = Seq::<Pair>::empty();
        let s1 = p1;
        let s2 = s1 + p2;
        let s3 = s2 + p3;
        let s4 = s3 + p4;
        let s5 = s4 + p5;
        let s6 = s5 + p6;
        assert(gone =~= Seq::<Pair>::empty());
        assert(here =~= seq![pair]);
        assert(before + gone =~= before);
        assert(before + here =~= here);
        vstd::seq_lib::lemma_concat_associative(before + here, s1, p2);
        vstd::seq_lib::lemma_concat_associative(before, s1, p2);
        vstd::seq_lib::lemma_concat_associative(before + here, s2, p3);
        vstd::seq_lib::lemma_concat_associative(before, s2, p3);
        vstd::seq_lib::lemma_concat_associative(before + here, s3, p4);
        vstd::seq_lib::lemma_concat_associative(before, s3, p4);
        vstd::seq_lib::lemma_concat_associative(before + here, s4, p5);
        vstd::seq_lib::lemma_concat_associative(before, s4, p5);
        vstd::seq_lib::lemma_concat_associative(before + here, s5, p6);
        vstd::seq_lib::lemma_concat_associative(before, s5, p6);
        assert(spot_trades_params(symbol, id, start_time, end_time, from_id, limit, recv_window, timestamp) == before + here + s6);
        assert(spot_trades_params(symbol, None, start_time, end_time, from_id, limit, recv_window, timestamp) == before + s6);
        lemma_one_more(before, pair.0, pair.1, s6);
    }
    if start_time is Some {
        let v = start_time->0;
        let pair = ("startTime"@, decimal(v as int));
        let p0 = optional_i64("orderId"@, id);
        let p2 = optional_u128("endTime"@, end_time);
        let p3 = optional_i64("fromId"@, from_id);
        let p4 = optional_u16("limit"@, limit);
        let p5 = optional_u8("recvWindow"@, recv_window);
        let p6 = seq![("symbol"@, symbol), ("timestamp"@, decimal(timestamp as int))];
        let here = optional_u128("startTime"@, start_time);
        let gone = optional_u128("startTime"@, None);
        let before = p0;
        let s2 = p2;
        let s3 = s2 + p3;
        let s4 = s3 + p4;
        let s5 = s4 + p5;
        let s6 = s5 + p6;
        assert(gone =~= Seq::<Pair>::empty());
        assert(here =~= seq![pair]);
        assert(before + gone =~= before);
        vstd::seq_lib::lemma_concat_associative(before + here, s2, p3);
        vstd::seq_lib::lemma_concat_associative(before, s2, p3);
        vstd::seq_lib::lemma_concat_associative(before + here, s3, p4);
        vstd::seq_lib::lemma_concat_associative(before, s3, p4);
        vstd::seq_lib::lemma_concat_associative(before + here, s4, p5);
        vstd::seq_lib::lemma_concat_associative(before, s4, p5);
        vstd::seq_lib::lemma_concat_associative(before + here, s5, p6);
        vstd::seq_lib::lemma_concat_associative(before, s5, p6);
        assert(spot_trades_params(symbol, id, start_time, end_time, from_id, limit, recv_window, timestamp) == before + here + s6);
        assert(spot_trades_params(symbol, id, None, end_time, from_id, limit, recv_window, timestamp) == before + s6);
        lemma_one_more(before, pair.0, pair.1, s6);
    }
    if end_time is Some {
        let v = end_time->0;
        let pair = ("endTime"@, decimal(v as int));
        let p0 = optional_i64("orderId"@, id);
        let p1 = optional_u128("startTime"@, start_time);
        let p3 = optional_i64("fromId"@, from_id);
        let p4 = optional_u16("limit"@, limit);
        let p5 = optional_u8("recvWindow"@, recv_window);
        let p6 = seq![("symbol"@, symbol), ("timestamp"@, decimal(timestamp as int))];
        let here = optional_u128("endTime"@, end_time);
        let gone = optional_u128("endTime"@, None);
        let before = p0 + p1;
        let s3 = p3;
        let s4 = s3 + p4;
        let s5 = s4 + p5;
        let s6 = s5 + p6;
        assert(gone =~= Seq::<Pair>::empty());
        assert(here =~= seq![pair]);
        assert(before + gone =~= before);
        vstd::seq_lib::lemma_concat_associative(before + here, s3, p4);
        vstd::seq_lib::lemma_concat_associative(before, s3, p4);
        vstd::seq_lib::lemma_concat_associative(before + here, s4, p5);
        vstd::seq_lib::lemma_concat_associative(before, s4, p5);
        vstd::seq_lib::lemma_concat_associative(before + here, s5, p6);
        vstd::seq_lib::lemma_concat_associative(before, s5, p6);
        assert(spot_trades_params(symbol, id, start_time, end_time, from_id, limit, recv_window, timestamp) == before + here + s6);
        assert(spot_trades_params(symbol, id, start_time, None, from_id, limit, recv_window, timestamp) == before + s6);
        lemma_one_more(before, pair.0, pair.1, s6);
    }
    if from_id is Some {
        let v = from_id->0;
        let pair = ("fromId"@, decimal(v as int));
        let p0 = optional_i64("orderId"@, id);
        let p1 = optional_u128("startTime"@, start_time);
        let p2 = optional_u128("endTime"@, end_time);
        let p4 = optional_u16("limit"@, limit);
        let p5 = optional_u8("recvWindow"@, recv_window);
        let p6 = seq![("symbol"@, symbol), ("timestamp"@, decimal(timestamp as int))];
        let here = optional_i64("fromId"@, from_id);
        let gone = optional_i64("fromId"@, None);
        let before = p0 + p1 + p2;
        let s4 = p4;
        let s5 = s4 + p5;
        let s6 = s5 + p6;
        assert(gone =~= Seq::<Pair>::empty());
        assert(here =~= seq![pair]);
        assert(before + gone =~= before);
        vstd::seq_lib::lemma_concat_associative(before + here, s4, p5);
        vstd::seq_lib::lemma_concat_associative(before, s4, p5);
        vstd::seq_lib::lemma_concat_associative(before + here, s5, p6);
        vstd::seq_lib::lemma_concat_associative(before, s5, p6);
        assert(spot_trades_params(symbol, id, start_time, end_time, from_id, limit, recv_window, timestamp) == before + here + s6);
        assert(spot_trades_params(symbol, id, start_time, end_time, None, limit, recv_window, timestamp) == before + s6);
        lemma_one_more(before, pair.0, pair.1, s6);
    }
    if limit is Some {
        let v = limit->0;
        let pair = ("limit"@, decimal(v as int));
        let p0 = optional_i64("orderId"@, id);
        let p1 = optional_u128("startTime"@, start_time);
        let p2 = optional_u128("endTime"@, end_time);
        let p3 = optional_i64("fromId"@, from_id);
        let p5 = optional_u8("recvWindow"@, recv_window);
        let p6 = seq![("symbol"@, symbol), ("timestamp"@, decimal(timestamp as int))];
        let here = optional_u16("limit"@, limit);
        let gone = optional_u16("limit"@, None);
        let before = p0 + p1 + p2 + p3;
        let s5 = p5;
        let s6 = s5 + p6;
        assert(gone =~= Seq::<Pair>::empty());
        assert(here =~= seq![pair]);
        assert(before + gone =~= before);
        vstd::seq_lib::lemma_concat_associative(before + here, s5, p6);
        vstd::seq_lib::lemma_concat_associative(before, s5, p6);
        assert(spot_trades_params(symbol, id, start_time, end_time, from_id, limit, recv_window, timestamp) == before + here + s6);
        assert(spot_trades_params(symbol, id, start_time, end_time, from_id, None, recv_window, timestamp) == before + s6);
        lemma_one_more(before, pair.0, pair.1, s6);
    }
    if recv_window is Some {
        let v = recv_window->0;
        let pair = ("recvWindow"@, decimal(v as int));
        let p0 = optional_i64("orderId"@, id);
        let p1 = optional_u128("startTime"@, start_time);
        let p2 = optional_u128("endTime"@, end_time);
        let p3 = optional_i64("fromId"@, from_id);
        let p4 = optional_u16("limit"@, limit);
        let p6 = seq![("symbol"@, symbol), ("timestamp"@, decimal(timestamp as int))];
        let here = optional_u8("recvWindow"@, recv_window);
        let gone = optional_u8("recvWindow"@, None);
        let before = p0 + p1 + p2 + p3 + p4;
        let s6 = p6;
        assert(gone =~= Seq::<Pair>::empty());
        assert(here =~= seq![pair]);
        assert(before + gone =~= before);
        assert(spot_trades_params(symbol, id, start_time, end_time, from_id, limit, recv_window, timestamp) == before + here + s6);
        assert(spot_trades_params(symbol, id, start_time, end_time, from_id, limit, None, timestamp) == before + s6);
        lemma_one_more(before, pair.0, pair.1, s6);
    }
}

/// Each optional argument of `spot_all_order_info` stands for one pair of its own: with
/// it the parameters are those without it and that pair among them, so that
/// the query without it is strictly shorter and holds nothing in its place.
pub proof fn law_spot_all_order_info_optionals(
    symbol: Seq<char>,
    id: Option<i64>,
    start_time: Option<u128>,
    end_time: Option<u128>,
    limit: Option<u16>,
    recv_window: Option<u8>,
    timestamp: u128,
)
    ensures
        id is Some ==> one_more(
            spot_all_order_info_params(symbol, None, start_time, end_time, limit, recv_window, timestamp),
            spot_all_order_info_params(symbol, id, start_time, end_time, limit, recv_window, timestamp),
            "orderId"@,
        ),
        start_time is Some ==> one_more(
            spot_all_order_info_params(symbol, id, None, end_time, limit, recv_window, timestamp),
            spot_all_order_info_params(symbol, id, start_time, end_time, limit, recv_window, timestamp),
            "startTime"@,
        ),
        end_time is Some ==> one_more(
            spot_all_order_info_params(symbol, id, start_time, None, limit, recv_window, timestamp),
            spot_all_order_info_params(symbol, id, start_time, end_time, limit, recv_window, timestamp),
            "endTime"@,
        ),
        limit is Some ==> one_more(
            spot_all_order_info_params(symbol, id, start_time, end_time, None, recv_window, timestamp),
            spot_all_order_info_params(symbol, id, start_time, end_time, limit, recv_window, timestamp),
            "limit"@,
        ),
        recv_window is Some ==> one_more(
            spot_all_order_info_params(symbol, id, start_time, end_time, limit, None, timestamp),
            spot_all_order_info_params(symbol, id, start_time, end_time, limit, recv_window, timestamp),
            "recvWindow"@,
        ),
{
    if id is Some {
        let v = id->0;
        let pair = ("orderId"@, decimal(v as int));
        let p1 = optional_u128("startTime"@, start_time);
        let p2 = optional_u128("endTime"@, end_time);
        let p3 = optional_u16("limit"@, limit);
        let p4 = optional_u8("recvWindow"@, recv_window);
        let p5 = seq![("symbol"@, symbol), ("timestamp"@, decimal(timestamp as int))];
        let here = optional_i64("orderId"@, id);
        let gone = optional_i64("orderId"@, None);
        let before = Seq::<Pair>::empty();
        let s1 = p1;
        let s2 = s1 + p2;
        let s3 = s2 + p3;
        let s4 = s3 + p4;
        let s5 = s4 + p5;
        assert(gone =~= Seq::<Pair>::empty());
        assert(here =~= seq![pair]);
        assert(before + gone =~= before);
        assert(before + here =~= here);
        vstd::seq_lib::lemma_concat_associative(before + here, s1, p2);
        vstd::seq_lib::lemma_concat_associative(before, s1, p2);
        vstd::seq_lib::lemma_concat_associative(before + here, s2, p3);
        vstd::seq_lib::lemma_concat_associative(before, s2, p3);
        vstd::seq_lib::lemma_concat_associative(before + here, s3, p4);
        vstd::seq_lib::lemma_concat_associative(before, s3, p4);
        vstd::seq_lib::lemma_concat_associative(before + here, s4, p5);
        vstd::seq_lib::lemma_concat_associative(before, s4, p5);
        assert(spot_all_order_info_params(symbol, id, start_time, end_time, limit, recv_window, timestamp) == before + here + s5);
        assert(spot_all_order_info_params(symbol, None, start_time, end_time, limit, recv_window, timestamp) == before + s5);
        lemma_one_more(before, pair.0, pair.1, s5);
    }
    if start_time is Some {
        let v = start_time->0;
        let pair = ("startTime"@, decimal(v as int));
        let p0 = optional_i64("orderId"@, id);
        let p2 = optional_u128("endTime"@, end_time);
        let p3 = optional_u16("limit"@, limit);
        let p4 = optional_u8("recvWindow"@, recv_window);
        let p5 = seq![("symbol"@, symbol), ("timestamp"@, decimal(timestamp as int))];
        let here = optional_u128("startTime"@, start_time);
        let gone = optional_u128("startTime"@, None);
        let before = p0;
        let s2 = p2;
        let s3 = s2 + p3;
        let s4 = s3 + p4;
        let s5 = s4 + p5;
        assert(gone =~= Seq::<Pair>::empty());
        assert(here =~= seq![pair]);
        assert(before + gone =~= before);
        vstd::seq_lib::lemma_concat_associative(before + here, s2, p3);
        vstd::seq_lib::lemma_concat_associative(before, s2, p3);
        vstd::seq_lib::lemma_concat_associative(before + here, s3, p4);
        vstd::seq_lib::lemma_concat_associative(before, s3, p4);
        vstd::seq_lib::lemma_concat_associative(before + here, s4, p5);
        vstd::seq_lib::lemma_concat_associative(before, s4, p5);
        assert(spot_all_order_info_params(symbol, id, start_time, end_time, limit, recv_window, timestamp) == before + here + s5);
        assert(spot_all_order_info_params(symbol, id, None, end_time, limit, recv_window, timestamp) == before + s5);
        lemma_one_more(before, pair.0, pair.1, s5);
    }
    if end_time is Some {
        let v = end_time->0;
        let pair = ("endTime"@, decimal(v as int));
        let p0 = optional_i64("orderId"@, id);
        let p1 = optional_u128("startTime"@, start_time);
        let p3 = optional_u16("limit"@, limit);
        let p4 = optional_u8("recvWindow"@, recv_window);
        let p5 = seq![("symbol"@, symbol), ("timestamp"@, decimal(timestamp as int))];
        let here = optional_u128("endTime"@, end_time);
        let gone = optional_u128("endTime"@, None);
        let before = p0 + p1;
        let s3 = p3;
        let s4 = s3 + p4;
        let s5 = s4 + p5;
        assert(gone =~= Seq::<Pair>::empty());
        assert(here =~= seq![pair]);
        assert(before + gone =~= before);
        vstd::seq_lib::lemma_concat_associative(before + here, s3, p4);
        vstd::seq_lib::lemma_concat_associative(before, s3, p4);
        vstd::seq_lib::lemma_concat_associative(before + here, s4, p5);
        vstd::seq_lib::lemma_concat_associative(before, s4, p5);
        assert(spot_all_order_info_params(symbol, id, start_time, end_time, limit, recv_window, timestamp) == before + here + s5);
        assert(spot_all_order_info_params(symbol, id, start_time, None, limit, recv_window, timestamp) == before + s5);
        lemma_one_more(before, pair.0, pair.1, s5);
    }
    if limit is Some {
        let v = limit->0;
        let pair = ("limit"@, decimal(v as int));
        let p0 = optional_i64("orderId"@, id);
        let p1 = optional_u128("startTime"@, start_time);
        let p2 = optional_u128("endTime"@, end_time);
        let p4 = optional_u8("recvWindow"@, recv_window);
        let p5 = seq![("symbol"@, symbol), ("timestamp"@, decimal(timestamp as int))];
        let here = optional_u16("limit"@, limit);
        let gone = optional_u16("limit"@, None);
        let before = p0 + p1 + p2;
        let s4 = p4;
        let s5 = s4 + p5;
        assert(gone =~= Seq::<Pair>::empty());
        assert(here =~= seq![pair]);
        assert(before + gone =~= before);
        vstd::seq_lib::lemma_concat_associative(before + here, s4, p5);
        vstd::seq_lib::lemma_concat_associative(before, s4, p5);
        assert(spot_all_order_info_params(symbol, id, start_time, end_time, limit, recv_window, timestamp) == before + here + s5);
        assert(spot_all_order_info_params(symbol, id, start_time, end_time, None, recv_window, timestamp) == before + s5);
        lemma_one_more(before, pair.0, pair.1, s5);
    }
    if recv_window is Some {
        let v = recv_window->0;
        let pair = ("recvWindow"@, decimal(v as int));
        let p0 = optional_i64("orderId"@, id);
        let p1 = optional_u128("startTime"@, start_time);
        let p2 = optional_u128("endTime"@, end_time);
        let p3 = optional_u16("limit"@, limit);
        let p5 = seq![("symbol"@, symbol), ("timestamp"@, decimal(timestamp as int))];
        let here = optional_u8("recvWindow"@, recv_window);
        let gone = optional_u8("recvWindow"@, None);
        let before = p0 + p1 + p2 + p3;
        let s5 = p5;
        assert(gone =~= Seq::<Pair>::empty());
        assert(here =~= seq![pair]);
        assert(before + gone =~= before);
        assert(spot_all_order_info_params(symbol, id, start_time, end_time, limit, recv_window, timestamp) == before + here + s5);
        assert(spot_all_order_info_params(symbol, id, start_time, end_time, limit, None, timestamp) == before + s5);
        lemma_one_more(before, pair.0, pair.1, s5);
    }
}

/// Each optional argument of `spot_order_info` stands for one pair of its own: with
/// it the parameters are those without it and that pair among them, so that
/// the query without it is strictly shorter and holds nothing in its place.
pub proof fn law_spot_order_info_optionals(
    symbol: Seq<char>,
    id: i64,
    recv_window: Option<u8>,
    timestamp: u128,
)
    ensures
        recv_window is Some ==> one_more(
            spot_order_info_params(symbol, id, None, timestamp),
            spot_order_info_params(symbol, id, recv_window, timestamp),
            "recvWindow"@,
        ),
{
    if recv_window is Some {
        let v = recv_window->0;
        let pair = ("recvWindow"@, decimal(v as int));
        let p1 = seq![("symbol"@, symbol), ("orderId"@, decimal(id as int)), ("timestamp"@, decimal(timestamp as int))];
        let here = optional_u8("recvWindow"@, recv_window);
        let gone = optional_u8("recvWindow"@, None);
        let before = Seq::<Pair>::empty();
        let s1 = p1;
        assert(gone =~= Seq::<Pair>::empty());
        assert(here =~= seq![pair]);
        assert(before + gone =~= before);
        assert(before + here =~= here);
        assert(spot_order_info_params(symbol, id, recv_window, timestamp) == before + here + s1);
        assert(spot_order_info_params(symbol, id, None, timestamp) == before + s1);
        lemma_one_more(before, pair.0, pair.1, s1);
    }
}

/// Without its optional arguments `spot_trades` asks with what it must and no
/// more: no optional parameter is there, by name or by an empty value.
pub proof fn law_spot_trades_without_optionals(symbol: Seq<char>, timestamp: u128)
    ensures
        spot_trades_params(symbol, None, None, None, None, None, None, timestamp) == seq![("symbol"@, symbol), ("timestamp"@, decimal(timestamp as int))],
{
    assert(spot_trades_params(symbol, None, None, None, None, None, None, timestamp) =~= seq![("symbol"@, symbol), ("timestamp"@, decimal(timestamp as int))]);
}

/// Without its optional arguments `spot_all_order_info` asks with what it must and no
/// more: no optional parameter is there, by name or by an empty value.
pub proof fn law_spot_all_order_info_without_optionals(symbol: Seq<char>, timestamp: u128)
    ensures
        spot_all_order_info_params(symbol, None, None, None, None, None, timestamp) == seq![("symbol"@, symbol), ("timestamp"@, decimal(timestamp as int))],
{
    assert(spot_all_order_info_params(symbol, None, None, None, None, None, timestamp) =~= seq![("symbol"@, symbol), ("timestamp"@, decimal(timestamp as int))]);
}

/// Without its optional arguments `spot_order_info` asks with what it must and no
/// more: no optional parameter is there, by name or by an empty value.
pub proof fn law_spot_order_info_without_optionals(symbol: Seq<char>, id: i64, timestamp: u128)
    ensures
        spot_order_info_params(symbol, id, None, timestamp) == seq![("symbol"@, symbol), ("orderId"@, decimal(id as int)), ("timestamp"@, decimal(timestamp as int))],
{
    assert(spot_order_info_params(symbol, id, None, timestamp) =~= seq![("symbol"@, symbol), ("orderId"@, decimal(id as int)), ("timestamp"@, decimal(timestamp as int))]);
}

/// The receive window of a market order stands for one pair of its own,
/// between the quantity and the timestamp; without it the parameters are the
/// others alone.
pub proof fn law_spot_market_order_optionals(
    symbol: Seq<char>,
    side: OrderSide,
    quantity_name: Seq<char>,
    quantity: Seq<char>,
    recv_window: Option<u8>,
    timestamp: u128,
)
    ensures
        recv_window is Some ==> one_more(
            spot_market_order_params(symbol, side, quantity_name, quantity, None, timestamp),
            spot_market_order_params(symbol, side, quantity_name, quantity, recv_window, timestamp),
            "recvWindow"@,
        ),
{
    if recv_window is Some {
        let v = recv_window->0;
        let before = seq![
            ("symbol"@, symbol),
            ("side"@, side.text()),
            ("type"@, "MARKET"@),
            ("newOrderRespType"@, "FULL"@),
            (quantity_name, quantity),
        ];
        let after = seq![("timestamp"@, decimal(timestamp as int))];
        assert(spot_market_order_params(symbol, side, quantity_name, quantity, None, timestamp)
            =~= before + after);
        assert(spot_market_order_params(
            symbol,
            side,
            quantity_name,
            quantity,
            recv_window,
            timestamp,
        ) =~= before + seq![("recvWindow"@, decimal(v as int))] + after);
        lemma_one_more(before, "recvWindow"@, decimal(v as int), after);
    }
}

} // verus!
