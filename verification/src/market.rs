//! Market data: what the exchange tells anyone.

pub mod symbol_filter;

use crate::http::address::{parsed_url, query_string, url_parts, with_path, Pair};
use crate::http::client::{Client, ClientResult};
use crate::http::error::{ClientError, ErrorKind};
use crate::http::json::{json_array, to_json_array};
use crate::http::laws::{law_query_holds_the_parameters, lemma_query_string_len};
use crate::http::query::Params;
use crate::http::request::{agrees, Method, RequestBuilder, RequestView};
use crate::types::{Price, Symbol};
use serde_json::Value as JsonValue;
use vstd::prelude::*;

verus! {

impl Client {
    /// What a call about an optional list of symbols returns: the list goes
    /// into the one parameter `symbols` as a JSON array, and without a list
    /// the query is empty.
    pub open spec fn symbols_outcome(&self, path: Seq<char>, symbols: Option<&Vec<Symbol>>) -> Result<
        RequestView,
        ErrorKind,
    > {
        match symbols {
            Some(list) => self.unsigned_with_query_outcome(
                Method::Get,
                path,
                seq![("symbols"@, json_array(list.deep_view()))],
            ),
            None => self.unsigned_with_query_outcome(Method::Get, path, Seq::<Pair>::empty()),
        }
    }

    /// A call about an optional list of symbols.
    fn symbols_request(&self, path: &str, symbols: Option<&Vec<Symbol>>) -> (r: ClientResult<
        RequestBuilder,
    >)
        ensures
            agrees(r, self.symbols_outcome(path@, symbols)),
    {
        let mut params = Params::new();
        match symbols {
            Some(list) => match to_json_array(list) {
                Ok(text) => {
                    params.append_pair("symbols", text.as_str());
                    assert(params@ =~= seq![("symbols"@, text@)]);
                },
                Err(e) => {
                    return Err(ClientError::from_json_error(e));
                },
            },
            None => {},
        }
        self.unsigned_with_query(Method::Get, path, &params)
    }

    /// Tests the connection.
    pub fn server_ping(&self) -> (r: ClientResult<RequestBuilder>)
        ensures
            agrees(r, self.unsigned_outcome(Method::Get, "/api/v3/ping"@, Seq::<Pair>::empty())),
    {
        self.unsigned(Method::Get, "/api/v3/ping", &Params::new())
    }

    /// The time of the exchange.
    pub fn server_time(&self) -> (r: ClientResult<RequestBuilder>)
        ensures
            agrees(r, self.unsigned_outcome(Method::Get, "/api/v3/time"@, Seq::<Pair>::empty())),
    {
        self.unsigned(Method::Get, "/api/v3/time", &Params::new())
    }

    /// The trading rules of one symbol.
    pub fn exchange_info(&self, symbol: &Symbol) -> (r: ClientResult<RequestBuilder>)
        ensures
            agrees(
                r,
                self.unsigned_outcome(
                    Method::Get,
                    "/api/v3/exchangeInfo"@,
                    seq![("symbol"@, symbol@)],
                ),
            ),
    {
        let mut params = Params::new();
        params.append_pair("symbol", symbol.as_str());
        assert(params@ =~= seq![("symbol"@, symbol@)]);
        self.unsigned(Method::Get, "/api/v3/exchangeInfo", &params)
    }

    /// The trading rules of the symbols listed, or of all.
    pub fn exchange_infos(&self, symbols: Option<&Vec<Symbol>>) -> (r: ClientResult<RequestBuilder>)
        ensures
            agrees(r, self.symbols_outcome("/api/v3/exchangeInfo"@, symbols)),
    {
        self.symbols_request("/api/v3/exchangeInfo", symbols)
    }

    /// The latest price of one symbol.
    pub fn price(&self, symbol: &Symbol) -> (r: ClientResult<RequestBuilder>)
        ensures
            agrees(
                r,
                self.unsigned_outcome(
                    Method::Get,
                    "/api/v3/ticker/price"@,
                    seq![("symbol"@, symbol@)],
                ),
            ),
    {
        let mut params = Params::new();
        params.append_pair("symbol", symbol.as_str());
        assert(params@ =~= seq![("symbol"@, symbol@)]);
        self.unsigned(Method::Get, "/api/v3/ticker/price", &params)
    }

    /// The latest prices of the symbols listed, or of all.
    pub fn prices(&self, symbols: Option<&Vec<Symbol>>) -> (r: ClientResult<RequestBuilder>)
        ensures
            agrees(r, self.symbols_outcome("/api/v3/ticker/price"@, symbols)),
    {
        self.symbols_request("/api/v3/ticker/price", symbols)
    }
}

#[derive(Debug, Clone)]
pub struct SymbolPrice {
    pub symbol: Symbol,
    pub price: Price,
}

#[derive(Debug, Clone)]
pub struct ServerTime {
    pub server_time: u128,
}

#[derive(Debug, Clone)]
pub struct ServerPing {}

#[derive(Debug, Clone)]
pub struct ExchangeInfo {
    pub timezone: String,
    pub server_time: u128,
    pub rate_limits: Vec<RateLimit>,
    pub exchange_filters: Vec<JsonValue>,
    pub symbols: Vec<SymbolInfo>,
}

#[derive(Debug, Clone)]
pub struct RateLimit {
    pub rate_limit_type: String,
    pub interval: String,
    pub interval_num: u8,
    pub limit: u32,
}

#[derive(Debug, Clone)]
pub struct SymbolInfo {
    pub symbol: Symbol,
    pub status: String,
    pub base_asset: Symbol,
    pub base_asset_precision: u8,
    pub quote_asset: Symbol,
    pub quote_precision: u8,
    pub quote_asset_precision: u8,
    pub base_commission_precision: u8,
    pub quote_commission_precision: u8,
    pub order_types: Vec<String>,
    pub iceberg_allowed: bool,
    pub oco_allowed: bool,
    pub oto_allowed: bool,
    pub quote_order_qty_market_allowed: bool,
    pub allow_trailing_stop: bool,
    pub cancel_replace_allowed: bool,
    pub is_spot_trading_allowed: bool,
    pub is_margin_trading_allowed: bool,
    pub filters: Vec<symbol_filter::SymbolFilter>,
    pub permissions: Vec<JsonValue>,
    pub permission_sets: Vec<Vec<String>>,
    pub default_self_trade_prevention_mode: String,
    pub allowed_self_trade_prevention_modes: Vec<String>,
}

/// A call about an optional list of symbols, from a client with a base URL
/// without a query of its own: without a list the query is there and empty,
/// and with a list, be it an empty one, it is the one parameter `symbols`
/// with the list as a JSON array, which is strictly longer.
pub proof fn law_symbols_query(client: Client, path: Seq<char>, list: &Vec<Symbol>)
    requires
        parsed_url(client.spec_base_url()) matches Some(base) && url_parts(base).query_text().len()
            == 0,
        client.symbols_outcome(path, None) is Ok,
        client.symbols_outcome(path, Some(list)) is Ok,
    ensures
        client.symbols_outcome(path, None)->Ok_0.url.query == Some(Seq::<char>::empty()),
        client.symbols_outcome(path, Some(list))->Ok_0.url.query == Some(
            query_string(seq![("symbols"@, json_array(list.deep_view()))]),
        ),
        query_string(seq![("symbols"@, json_array(list.deep_view()))]).len() > 0,
{
    let base = parsed_url(client.spec_base_url())->0;
    let start = with_path(base, path);
    let params = seq![("symbols"@, json_array(list.deep_view()))];
    law_query_holds_the_parameters(start, Seq::<Pair>::empty());
    law_query_holds_the_parameters(start, params);
    lemma_query_string_len(params);
}

} // verus!
