//! The account: assets, restrictions, balances and fees.

use crate::http::address::Pair;
use crate::http::client::{Client, ClientResult};
use crate::http::laws::{lemma_one_more, one_more};
use crate::http::query::{optional_bool, optional_text, optional_u8, Params};
use crate::http::request::{agrees, Method, RequestBuilder};
use crate::http::signature::{signature, TAG_BYTES};
use crate::text::{boolean, decimal};
use crate::types::{Asset, Commission, Decimal, Quantity, Symbol};
use vstd::prelude::*;

verus! {

/// The parameters of `user_asset`.
pub open spec fn user_asset_params(
    asset: Option<&String>,
    need_btc_valuation: Option<bool>,
    recv_window: Option<u8>,
    timestamp: u128,
) -> Seq<Pair> {
    optional_text("asset"@, asset) + optional_bool("needBtcValuation"@, need_btc_valuation)
        + optional_u8("recvWindow"@, recv_window) + seq![
        ("timestamp"@, decimal(timestamp as int)),
    ]
}

/// The parameters of `api_restrictions`.
pub open spec fn api_restrictions_params(recv_window: Option<u8>, timestamp: u128) -> Seq<Pair> {
    optional_u8("recvWindow"@, recv_window) + seq![("timestamp"@, decimal(timestamp as int))]
}

/// The parameters of `spot_account`.
pub open spec fn spot_account_params(
    omit_zero_balances: Option<bool>,
    recv_window: Option<u8>,
    timestamp: u128,
) -> Seq<Pair> {
    optional_bool("omitZeroBalances"@, omit_zero_balances) + optional_u8(
        "recvWindow"@,
        recv_window,
    ) + seq![("timestamp"@, decimal(timestamp as int))]
}

/// The parameters of `spot_commission`.
pub open spec fn spot_commission_params(symbol: Seq<char>, timestamp: u128) -> Seq<Pair> {
    seq![("symbol"@, symbol), ("timestamp"@, decimal(timestamp as int))]
}

/// The parameters of `trade_fee`.
pub open spec fn trade_fee_params(symbol: Seq<char>, recv_window: Option<u8>, timestamp: u128) -> Seq<
    Pair,
> {
    optional_u8("recvWindow"@, recv_window) + seq![
        ("symbol"@, symbol),
        ("timestamp"@, decimal(timestamp as int)),
    ]
}

impl Client {
    /// The assets of the user, all or one.
    pub fn user_asset(
        &self,
        asset: Option<&String>,
        need_btc_valuation: Option<bool>,
        recv_window: Option<u8>,
        timestamp: u128,
    ) -> (r: ClientResult<RequestBuilder>)
        ensures
            agrees(
                r,
                self.signed_outcome(
                    Method::Post,
                    "/sapi/v3/asset/getUserAsset"@,
                    user_asset_params(asset, need_btc_valuation, recv_window, timestamp),
                ),
            ),
            r is Ok ==> signature(
                self.spec_secret().spec_secret_key()->0,
                self.target("/sapi/v3/asset/getUserAsset"@, user_asset_params(asset, need_btc_valuation, recv_window, timestamp))->0.query_text(),
            ).len() == 2 * TAG_BYTES,
    {
        let mut params = Params::new();
        params.append_optional_text("asset", asset);
        params.append_optional_bool("needBtcValuation", need_btc_valuation);
        params.append_optional_u8("recvWindow", recv_window);
        params.append_u128("timestamp", timestamp);
        assert(params@ =~= user_asset_params(asset, need_btc_valuation, recv_window, timestamp));
        self.signed(Method::Post, "/sapi/v3/asset/getUserAsset", &params)
    }

    /// What the API key is allowed to do.
    pub fn api_restrictions(&self, recv_window: Option<u8>, timestamp: u128) -> (r: ClientResult<
        RequestBuilder,
    >)
        ensures
            agrees(
                r,
                self.signed_outcome(
                    Method::Get,
                    "/sapi/v1/account/apiRestrictions"@,
                    api_restrictions_params(recv_window, timestamp),
                ),
            ),
            r is Ok ==> signature(
                self.spec_secret().spec_secret_key()->0,
                self.target("/sapi/v1/account/apiRestrictions"@, api_restrictions_params(recv_window, timestamp))->0.query_text(),
            ).len() == 2 * TAG_BYTES,
    {
        let mut params = Params::new();
        params.append_optional_u8("recvWindow", recv_window);
        params.append_u128("timestamp", timestamp);
        assert(params@ =~= api_restrictions_params(recv_window, timestamp));
        self.signed(Method::Get, "/sapi/v1/account/apiRestrictions", &params)
    }

    /// The spot account with its balances.
    pub fn spot_account(
        &self,
        omit_zero_balances: Option<bool>,
        recv_window: Option<u8>,
        timestamp: u128,
    ) -> (r: ClientResult<RequestBuilder>)
        ensures
            agrees(
                r,
                self.signed_outcome(
                    Method::Get,
                    "/api/v3/account"@,
                    spot_account_params(omit_zero_balances, recv_window, timestamp),
                ),
            ),
            r is Ok ==> signature(
                self.spec_secret().spec_secret_key()->0,
                self.target("/api/v3/account"@, spot_account_params(omit_zero_balances, recv_window, timestamp))->0.query_text(),
            ).len() == 2 * TAG_BYTES,
    {
        let mut params = Params::new();
        params.append_optional_bool("omitZeroBalances", omit_zero_balances);
        params.append_optional_u8("recvWindow", recv_window);
        params.append_u128("timestamp", timestamp);
        assert(params@ =~= spot_account_params(omit_zero_balances, recv_window, timestamp));
        self.signed(Method::Get, "/api/v3/account", &params)
    }

    /// The commission rates of a symbol.
    pub fn spot_commission(&self, symbol: &Symbol, timestamp: u128) -> (r: ClientResult<
        RequestBuilder,
    >)
        ensures
            agrees(
                r,
                self.signed_outcome(
                    Method::Get,
                    "/api/v3/account/commission"@,
                    spot_commission_params(symbol@, timestamp),
                ),
            ),
            r is Ok ==> signature(
                self.spec_secret().spec_secret_key()->0,
                self.target("/api/v3/account/commission"@, spot_commission_params(symbol@, timestamp))->0.query_text(),
            ).len() == 2 * TAG_BYTES,
    {
        let mut params = Params::new();
        params.append_pair("symbol", symbol.as_str());
        params.append_u128("timestamp", timestamp);
        assert(params@ =~= spot_commission_params(symbol@, timestamp));
        self.signed(Method::Get, "/api/v3/account/commission", &params)
    }

    /// The trade fee of a symbol.
    pub fn trade_fee(&self, symbol: &Symbol, recv_window: Option<u8>, timestamp: u128) -> (r:
        ClientResult<RequestBuilder>)
        ensures
            agrees(
                r,
                self.signed_outcome(
                    Method::Get,
                    "/sapi/v1/asset/tradeFee"@,
                    trade_fee_params(symbol@, recv_window, timestamp),
                ),
            ),
            r is Ok ==> signature(
                self.spec_secret().spec_secret_key()->0,
                self.target("/sapi/v1/asset/tradeFee"@, trade_fee_params(symbol@, recv_window, timestamp))->0.query_text(),
            ).len() == 2 * TAG_BYTES,
    {
        let mut params = Params::new();
        params.append_optional_u8("recvWindow", recv_window);
        params.append_pair("symbol", symbol.as_str());
        params.append_u128("timestamp", timestamp);
        assert(params@ =~= trade_fee_params(symbol@, recv_window, timestamp));
        self.signed(Method::Get, "/sapi/v1/asset/tradeFee", &params)
    }
}

#[derive(Debug, Clone)]
pub struct TradeFee {
    pub symbol: Symbol,
    pub maker_commission: Commission,
    pub taker_commission: Commission,
}

#[derive(Debug, Clone)]
pub struct UserAsset {
    pub asset: Asset,
    pub free: Decimal,
    pub locked: Decimal,
    pub freeze: Decimal,
    pub withdrawing: Decimal,
    pub ipoable: Decimal,
    pub btc_valuation: Decimal,
}

#[derive(Debug, Clone)]
pub struct ApiRestrictions {
    pub ip_restrict: bool,
    pub create_time: u128,
    pub enable_internal_transfer: bool,
    pub enable_futures: bool,
    pub enable_portfolio_margin_trading: bool,
    pub enable_vanilla_options: bool,
    pub permits_universal_transfer: bool,
    pub enable_reading: bool,
    pub enable_spot_and_margin_trading: bool,
    pub enable_withdrawals: bool,
    pub enable_margin: bool,
}

#[derive(Debug, Clone)]
pub struct SpotAccount {
    pub maker_commission: u32,
    pub taker_commission: u32,
    pub buyer_commission: u32,
    pub seller_commission: u32,
    pub commission_rates: CommissionRates,
    pub can_trade: bool,
    pub can_withdraw: bool,
    pub can_deposit: bool,
    pub brokered: bool,
    pub require_self_trade_prevention: bool,
    pub prevent_sor: bool,
    pub update_time: u64,
    pub account_type: String,
    pub balances: Vec<Balance>,
    pub permissions: Vec<String>,
    pub uid: i64,
}

#[derive(Debug, Clone)]
pub struct CommissionRates {
    pub maker: Commission,
    pub taker: Commission,
    pub buyer: Commission,
    pub seller: Commission,
}

#[derive(Debug, Clone)]
pub struct Balance {
    pub asset: Asset,
    pub free: Quantity,
    pub locked_amount: Quantity,
}

#[derive(Debug, Clone)]
pub struct SpotCommission {
    pub symbol: Symbol,
    pub standard_commission: CommissionDetails,
    pub tax_commission: CommissionDetails,
    pub discount: DiscountDetails,
}

#[derive(Debug, Clone)]
pub struct CommissionDetails {
    pub maker: Commission,
    pub taker: Commission,
    pub buyer: Commission,
    pub seller: Commission,
}

#[derive(Debug, Clone)]
pub struct DiscountDetails {
    pub enabled_for_account: bool,
    pub enabled_for_symbol: bool,
    pub discount_asset: Asset,
    pub discount: Commission,
}

/// Each optional argument of `user_asset` stands for one pair of its own: with
/// it the parameters are those without it and that pair among them, so that
/// the query without it is strictly shorter and holds nothing in its place.
pub proof fn law_user_asset_optionals(
    asset: Option<&String>,
    need_btc_valuation: Option<bool>,
    recv_window: Option<u8>,
    timestamp: u128,
)
    ensures
        asset is Some ==> one_more(
            user_asset_params(None, need_btc_valuation, recv_window, timestamp),
            user_asset_params(asset, need_btc_valuation, recv_window, timestamp),
            "asset"@,
        ),
        need_btc_valuation is Some ==> one_more(
            user_asset_params(asset, None, recv_window, timestamp),
            user_asset_params(asset, need_btc_valuation, recv_window, timestamp),
            "needBtcValuation"@,
        ),
        recv_window is Some ==> one_more(
            user_asset_params(asset, need_btc_valuation, None, timestamp),
            user_asset_params(asset, need_btc_valuation, recv_window, timestamp),
            "recvWindow"@,
        ),
{
    if asset is Some {
        let v = asset->0;
        let pair = ("asset"@, v@);
        let p1 = optional_bool("needBtcValuation"@, need_btc_valuation);
        let p2 = optional_u8("recvWindow"@, recv_window);
        let p3 = seq![("timestamp"@, decimal(timestamp as int))];
        let here = optional_text("asset"@, asset);
        let gone = optional_text("asset"@, None);
        let before = Seq::<Pair>::empty();
        let s1 = p1;
        let s2 = s1 + p2;
        let s3 = s2 + p3;
        assert(gone =~= Seq::<Pair>::empty());
        assert(here =~= seq![pair]);
        assert(before + gone =~= before);
        assert(before + here =~= here);
        vstd::seq_lib::lemma_concat_associative(before + here, s1, p2);
        vstd::seq_lib::lemma_concat_associative(before, s1, p2);
        vstd::seq_lib::lemma_concat_associative(before + here, s2, p3);
        vstd::seq_lib::lemma_concat_associative(before, s2, p3);
        assert(user_asset_params(asset, need_btc_valuation, recv_window, timestamp) == before + here + s3);
        assert(user_asset_params(None, need_btc_valuation, recv_window, timestamp) == before + s3);
        lemma_one_more(before, pair.0, pair.1, s3);
    }
    if need_btc_valuation is Some {
        let v = need_btc_valuation->0;
        let pair = ("needBtcValuation"@, boolean(v));
        let p0 = optional_text("asset"@, asset);
        let p2 = optional_u8("recvWindow"@, recv_window);
        let p3 = seq![("timestamp"@, decimal(timestamp as int))];
        let here = optional_bool("needBtcValuation"@, need_btc_valuation);
        let gone = optional_bool("needBtcValuation"@, None);
        let before = p0;
        let s2 = p2;
        let s3 = s2 + p3;
        assert(gone =~= Seq::<Pair>::empty());
        assert(here =~= seq![pair]);
        assert(before + gone =~= before);
        vstd::seq_lib::lemma_concat_associative(before + here, s2, p3);
        vstd::seq_lib::lemma_concat_associative(before, s2, p3);
        assert(user_asset_params(asset, need_btc_valuation, recv_window, timestamp) == before + here + s3);
        assert(user_asset_params(asset, None, recv_window, timestamp) == before + s3);
        lemma_one_more(before, pair.0, pair.1, s3);
    }
    if recv_window is Some {
        let v = recv_window->0;
        let pair = ("recvWindow"@, decimal(v as int));
        let p0 = optional_text("asset"@, asset);
        let p1 = optional_bool("needBtcValuation"@, need_btc_valuation);
        let p3 = seq![("timestamp"@, decimal(timestamp as int))];
        let here = optional_u8("recvWindow"@, recv_window);
        let gone = optional_u8("recvWindow"@, None);
        let before = p0 + p1;
        let s3 = p3;
        assert(gone =~= Seq::<Pair>::empty());
        assert(here =~= seq![pair]);
        assert(before + gone =~= before);
        assert(user_asset_params(asset, need_btc_valuation, recv_window, timestamp) == before + here + s3);
        assert(user_asset_params(asset, need_btc_valuation, None, timestamp) == before + s3);
        lemma_one_more(before, pair.0, pair.1, s3);
    }
}

/// Each optional argument of `api_restrictions` stands for one pair of its own: with
/// it the parameters are those without it and that pair among them, so that
/// the query without it is strictly shorter and holds nothing in its place.
pub proof fn law_api_restrictions_optionals(
    recv_window: Option<u8>,
    timestamp: u128,
)
    ensures
        recv_window is Some ==> one_more(
            api_restrictions_params(None, timestamp),
            api_restrictions_params(recv_window, timestamp),
            "recvWindow"@,
        ),
{
    if recv_window is Some {
        let v = recv_window->0;
        let pair = ("recvWindow"@, decimal(v as int));
        let p1 = seq![("timestamp"@, decimal(timestamp as int))];
        let here = optional_u8("recvWindow"@, recv_window);
        let gone = optional_u8("recvWindow"@, None);
        let before = Seq::<Pair>::empty();
        let s1 = p1;
        assert(gone =~= Seq::<Pair>::empty());
        assert(here =~= seq![pair]);
        assert(before + gone =~= before);
        assert(before + here =~= here);
        assert(api_restrictions_params(recv_window, timestamp) == before + here + s1);
        assert(api_restrictions_params(None, timestamp) == before + s1);
        lemma_one_more(before, pair.0, pair.1, s1);
    }
}

/// Each optional argument of `spot_account` stands for one pair of its own: with
/// it the parameters are those without it and that pair among them, so that
/// the query without it is strictly shorter and holds nothing in its place.
pub proof fn law_spot_account_optionals(
    omit_zero_balances: Option<bool>,
    recv_window: Option<u8>,
    timestamp: u128,
)
    ensures
        omit_zero_balances is Some ==> one_more(
            spot_account_params(None, recv_window, timestamp),
            spot_account_params(omit_zero_balances, recv_window, timestamp),
            "omitZeroBalances"@,
        ),
        recv_window is Some ==> one_more(
            spot_account_params(omit_zero_balances, None, timestamp),
            spot_account_params(omit_zero_balances, recv_window, timestamp),
            "recvWindow"@,
        ),
{
    if omit_zero_balances is Some {
        let v = omit_zero_balances->0;
        let pair = ("omitZeroBalances"@, boolean(v));
        let p1 = optional_u8("recvWindow"@, recv_window);
        let p2 = seq![("timestamp"@, decimal(timestamp as int))];
        let here = optional_bool("omitZeroBalances"@, omit_zero_balances);
        let gone = optional_bool("omitZeroBalances"@, None);
        let before = Seq::<Pair>::empty();
        let s1 = p1;
        let s2 = s1 + p2;
        assert(gone =~= Seq::<Pair>::empty());
        assert(here =~= seq![pair]);
        assert(before + gone =~= before);
        assert(before + here =~= here);
        vstd::seq_lib::lemma_concat_associative(before + here, s1, p2);
        vstd::seq_lib::lemma_concat_associative(before, s1, p2);
        assert(spot_account_params(omit_zero_balances, recv_window, timestamp) == before + here + s2);
        assert(spot_account_params(None, recv_window, timestamp) == before + s2);
        lemma_one_more(before, pair.0, pair.1, s2);
    }
    if recv_window is Some {
        let v = recv_window->0;
        let pair = ("recvWindow"@, decimal(v as int));
        let p0 = optional_bool("omitZeroBalances"@, omit_zero_balances);
        let p2 = seq![("timestamp"@, decimal(timestamp as int))];
        let here = optional_u8("recvWindow"@, recv_window);
        let gone = optional_u8("recvWindow"@, None);
        let before = p0;
        let s2 = p2;
        assert(gone =~= Seq::<Pair>::empty());
        assert(here =~= seq![pair]);
        assert(before + gone =~= before);
        assert(spot_account_params(omit_zero_balances, recv_window, timestamp) == before + here + s2);
        assert(spot_account_params(omit_zero_balances, None, timestamp) == before + s2);
        lemma_one_more(before, pair.0, pair.1, s2);
    }
}

/// Each optional argument of `trade_fee` stands for one pair of its own: with
/// it the parameters are those without it and that pair among them, so that
/// the query without it is strictly shorter and holds nothing in its place.
pub proof fn law_trade_fee_optionals(
    symbol: Seq<char>,
    recv_window: Option<u8>,
    timestamp: u128,
)
    ensures
        recv_window is Some ==> one_more(
            trade_fee_params(symbol, None, timestamp),
            trade_fee_params(symbol, recv_window, timestamp),
            "recvWindow"@,
        ),
{
    if recv_window is Some {
        let v = recv_window->0;
        let pair = ("recvWindow"@, decimal(v as int));
        let p1 = seq![("symbol"@, symbol), ("timestamp"@, decimal(timestamp as int))];
        let here = optional_u8("recvWindow"@, recv_window);
        let gone = optional_u8("recvWindow"@, None);
        let before = Seq::<Pair>::empty();
        let s1 = p1;
        assert(gone =~= Seq::<Pair>::empty());
        assert(here =~= seq![pair]);
        assert(before + gone =~= before);
        assert(before + here =~= here);
        assert(trade_fee_params(symbol, recv_window, timestamp) == before + here + s1);
        assert(trade_fee_params(symbol, None, timestamp) == before + s1);
        lemma_one_more(before, pair.0, pair.1, s1);
    }
}

/// Without its optional arguments `user_asset` asks with what it must and no
/// more: no optional parameter is there, by name or by an empty value.
pub proof fn law_user_asset_without_optionals(timestamp: u128)
    ensures
        user_asset_params(None, None, None, timestamp) == seq![("timestamp"@, decimal(timestamp as int))],
{
    assert(user_asset_params(None, None, None, timestamp) =~= seq![("timestamp"@, decimal(timestamp as int))]);
}

/// Without its optional arguments `api_restrictions` asks with what it must and no
/// more: no optional parameter is there, by name or by an empty value.
pub proof fn law_api_restrictions_without_optionals(timestamp: u128)
    ensures
        api_restrictions_params(None, timestamp) == seq![("timestamp"@, decimal(timestamp as int))],
{
    assert(api_restrictions_params(None, timestamp) =~= seq![("timestamp"@, decimal(timestamp as int))]);
}

/// Without its optional arguments `spot_account` asks with what it must and no
/// more: no optional parameter is there, by name or by an empty value.
pub proof fn law_spot_account_without_optionals(timestamp: u128)
    ensures
        spot_account_params(None, None, timestamp) == seq![("timestamp"@, decimal(timestamp as int))],
{
    assert(spot_account_params(None, None, timestamp) =~= seq![("timestamp"@, decimal(timestamp as int))]);
}

/// Without its optional arguments `trade_fee` asks with what it must and no
/// more: no optional parameter is there, by name or by an empty value.
pub proof fn law_trade_fee_without_optionals(symbol: Seq<char>, timestamp: u128)
    ensures
        trade_fee_params(symbol, None, timestamp) == seq![("symbol"@, symbol), ("timestamp"@, decimal(timestamp as int))],
{
    assert(trade_fee_params(symbol, None, timestamp) =~= seq![("symbol"@, symbol), ("timestamp"@, decimal(timestamp as int))]);
}

} // verus!
