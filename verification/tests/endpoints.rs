use binance_client::error::ClientError;
use binance_client::http::client::Client;
use binance_client::http::request::{Method, RequestBuilder};
use binance_client::http::signature::sign;
use binance_client::spot::OrderSide;

const NOW: u128 = 1700000000000;

fn client() -> Client {
    Client::builder().build()
}

fn client_with_key_secret() -> Client {
    Client::builder().set_api_key("api-key".to_string()).set_secret_key("k".to_string()).build()
}

fn assert_unsigned(request: &RequestBuilder, url: &str) {
    assert_eq!(request.method(), Method::Get);
    assert_eq!(request.url().as_str(), url);
    assert!(request.api_key().is_none());
    assert!(request.headers().is_empty());
}

fn assert_signed(request: &RequestBuilder, method: Method, path: &str, query: &str) {
    assert_eq!(request.method(), method);
    assert_eq!(request.url().path(), path);
    assert_eq!(request.url().host_str(), Some("api.binance.com"));
    let want = format!("{}&signature={}", query, sign("k", query));
    assert_eq!(request.url().query(), Some(want.as_str()));
    assert_eq!(request.api_key().unwrap(), "api-key");
    assert_eq!(request.headers(), vec![("X-MBX-APIKEY".to_string(), "api-key".to_string())]);
}

#[test]
fn test_server_time() {
    let request = client().server_time().unwrap();
    assert_unsigned(&request, "https://api.binance.com/api/v3/time");
}

#[test]
fn test_server_ping() {
    let request = client().server_ping().unwrap();
    assert_unsigned(&request, "https://api.binance.com/api/v3/ping");
}

#[test]
fn test_price() {
    let request = client().price(&"BTCUSDT".into()).unwrap();
    assert_unsigned(&request, "https://api.binance.com/api/v3/ticker/price?symbol=BTCUSDT");
}

#[test]
fn test_prices() {
    let request = client().prices(Some(&vec!["BTCUSDT".into(), "ETHUSDT".into()])).unwrap();
    assert_unsigned(
        &request,
        "https://api.binance.com/api/v3/ticker/price?symbols=%5B%22BTCUSDT%22%2C%22ETHUSDT%22%5D",
    );
}

#[test]
fn test_exchange_info() {
    let request = client().exchange_info(&"BTCUSDT".into()).unwrap();
    assert_unsigned(&request, "https://api.binance.com/api/v3/exchangeInfo?symbol=BTCUSDT");
}

#[test]
fn test_exchange_infos() {
    let request = client().exchange_infos(Some(&vec!["BTCUSDT".into(), "ETHUSDT".into()])).unwrap();
    assert_unsigned(
        &request,
        "https://api.binance.com/api/v3/exchangeInfo?symbols=%5B%22BTCUSDT%22%2C%22ETHUSDT%22%5D",
    );
}

#[test]
fn test_get_api_restrictions() {
    let request = client().prices(None).unwrap();
    assert_unsigned(&request, "https://api.binance.com/api/v3/ticker/price?");
    assert_eq!(request.url().query(), Some(""));
}

#[test]
fn symbol_lists_are_json_arrays() {
    let request = client().exchange_infos(None).unwrap();
    assert_unsigned(&request, "https://api.binance.com/api/v3/exchangeInfo?");
    let request = client().prices(Some(&vec![])).unwrap();
    assert_unsigned(&request, "https://api.binance.com/api/v3/ticker/price?symbols=%5B%5D");
    let request = client().prices(Some(&vec!["A\"B".into()])).unwrap();
    assert_unsigned(
        &request,
        "https://api.binance.com/api/v3/ticker/price?symbols=%5B%22A%5C%22B%22%5D",
    );
}

#[test]
fn test_user_asset() {
    let client = client_with_key_secret();
    let request = client.user_asset(None, None, None, NOW).unwrap();
    assert_signed(&request, Method::Post, "/sapi/v3/asset/getUserAsset", "timestamp=1700000000000");
    let asset = "BTC".to_string();
    let request = client.user_asset(Some(&asset), Some(true), Some(5), NOW).unwrap();
    assert_signed(
        &request,
        Method::Post,
        "/sapi/v3/asset/getUserAsset",
        "asset=BTC&needBtcValuation=true&recvWindow=5&timestamp=1700000000000",
    );
}

#[test]
fn test_api_restrictions() {
    let client = client_with_key_secret();
    let request = client.api_restrictions(None, NOW).unwrap();
    assert_signed(&request, Method::Get, "/sapi/v1/account/apiRestrictions", "timestamp=1700000000000");
    let request = client.api_restrictions(Some(60), NOW).unwrap();
    assert_signed(
        &request,
        Method::Get,
        "/sapi/v1/account/apiRestrictions",
        "recvWindow=60&timestamp=1700000000000",
    );
}

#[test]
fn test_spot_account() {
    let client = client_with_key_secret();
    let request = client.spot_account(None, None, NOW).unwrap();
    assert_signed(&request, Method::Get, "/api/v3/account", "timestamp=1700000000000");
    let request = client.spot_account(Some(false), Some(0), NOW).unwrap();
    assert_signed(
        &request,
        Method::Get,
        "/api/v3/account",
        "omitZeroBalances=false&recvWindow=0&timestamp=1700000000000",
    );
}

#[test]
fn test_spot_commission() {
    let client = client_with_key_secret();
    let request = client.spot_commission(&"BTCUSDT".into(), NOW).unwrap();
    assert_signed(
        &request,
        Method::Get,
        "/api/v3/account/commission",
        "symbol=BTCUSDT&timestamp=1700000000000",
    );
}

#[test]
fn test_trade_fee() {
    let client = client_with_key_secret();
    let request = client.trade_fee(&"BTCUSDT".into(), None, NOW).unwrap();
    assert_signed(
        &request,
        Method::Get,
        "/sapi/v1/asset/tradeFee",
        "symbol=BTCUSDT&timestamp=1700000000000",
    );
    let request = client.trade_fee(&"BTCUSDT".into(), Some(255), NOW).unwrap();
    assert_signed(
        &request,
        Method::Get,
        "/sapi/v1/asset/tradeFee",
        "recvWindow=255&symbol=BTCUSDT&timestamp=1700000000000",
    );
}

#[test]
fn test_spot_market_order() {
    let client = client_with_key_secret();
    let request = client
        .spot_market_order_with_quote(&"BTCUSDT".into(), OrderSide::Buy, &"10.14159".into(), None, NOW)
        .unwrap();
    assert_signed(
        &request,
        Method::Post,
        "/api/v3/order",
        "symbol=BTCUSDT&side=BUY&type=MARKET&newOrderRespType=FULL&quoteOrderQty=10.14159&timestamp=1700000000000",
    );
    assert!(request.url().as_str().ends_with(
        "&signature=4f6f79fcfb6659fc34e7272401924f594109e28a39675c8006b8f3295020128d"
    ));
    let request = client
        .spot_market_order_with_quote(&"BTCUSDT".into(), OrderSide::Sell, &"10.14159".into(), None, NOW)
        .unwrap();
    assert_signed(
        &request,
        Method::Post,
        "/api/v3/order",
        "symbol=BTCUSDT&side=SELL&type=MARKET&newOrderRespType=FULL&quoteOrderQty=10.14159&timestamp=1700000000000",
    );
}

#[test]
fn test_spot_market_order_with_base() {
    let client = client_with_key_secret();
    let request = client
        .spot_market_order_with_base(&"BTCUSDT".into(), OrderSide::Buy, &"0.0001".into(), None, NOW)
        .unwrap();
    assert_signed(
        &request,
        Method::Post,
        "/api/v3/order",
        "symbol=BTCUSDT&side=BUY&type=MARKET&newOrderRespType=FULL&quantity=0.0001&timestamp=1700000000000",
    );
    let request = client
        .spot_market_order_with_base(&"BTCUSDT".into(), OrderSide::Sell, &"0.0001".into(), Some(9), NOW)
        .unwrap();
    assert_signed(
        &request,
        Method::Post,
        "/api/v3/order",
        "symbol=BTCUSDT&side=SELL&type=MARKET&newOrderRespType=FULL&quantity=0.0001&recvWindow=9&timestamp=1700000000000",
    );
}

#[test]
fn test_spot_order_info() {
    let client = client_with_key_secret();
    let request = client.spot_order_info(&"BTCUSDT".into(), 12345, None, NOW).unwrap();
    assert_signed(
        &request,
        Method::Get,
        "/api/v3/order",
        "symbol=BTCUSDT&orderId=12345&timestamp=1700000000000",
    );
    let request = client.spot_order_info(&"BTCUSDT".into(), 1, Some(5), NOW).unwrap();
    assert_signed(
        &request,
        Method::Get,
        "/api/v3/order",
        "recvWindow=5&symbol=BTCUSDT&orderId=1&timestamp=1700000000000",
    );
    let request = client.spot_all_order_info(&"BTCUSDT".into(), None, None, None, None, None, NOW).unwrap();
    assert_signed(&request, Method::Get, "/api/v3/allOrders", "symbol=BTCUSDT&timestamp=1700000000000");
    let request = client
        .spot_all_order_info(&"BTCUSDT".into(), Some(-3), Some(10), Some(20), Some(500), Some(1), NOW)
        .unwrap();
    assert_signed(
        &request,
        Method::Get,
        "/api/v3/allOrders",
        "orderId=-3&startTime=10&endTime=20&limit=500&recvWindow=1&symbol=BTCUSDT&timestamp=1700000000000",
    );
}

#[test]
fn test_spot_trade() {
    let client = client_with_key_secret();
    let request = client.spot_trade(&"BTCUSDT".into(), 12345, None, NOW).unwrap();
    assert_signed(
        &request,
        Method::Get,
        "/api/v3/myTrades",
        "orderId=12345&symbol=BTCUSDT&timestamp=1700000000000",
    );
    let request = client.spot_trades(&"BTCUSDT".into(), None, None, None, None, None, None, NOW).unwrap();
    assert_signed(&request, Method::Get, "/api/v3/myTrades", "symbol=BTCUSDT&timestamp=1700000000000");
    let request = client
        .spot_trades(&"BTCUSDT".into(), Some(1), Some(2), Some(3), Some(4), Some(5), Some(6), NOW)
        .unwrap();
    assert_signed(
        &request,
        Method::Get,
        "/api/v3/myTrades",
        "orderId=1&startTime=2&endTime=3&fromId=4&limit=5&recvWindow=6&symbol=BTCUSDT&timestamp=1700000000000",
    );
}

#[test]
fn the_timestamp_is_the_last_parameter_before_the_signature() {
    let client = client_with_key_secret();
    let requests = vec![
        client.user_asset(None, Some(false), Some(1), 7).unwrap(),
        client.api_restrictions(Some(1), 7).unwrap(),
        client.spot_account(Some(true), Some(1), 7).unwrap(),
        client.spot_commission(&"X".into(), 7).unwrap(),
        client.trade_fee(&"X".into(), Some(1), 7).unwrap(),
        client.spot_order_info(&"X".into(), 1, Some(1), 7).unwrap(),
        client.spot_trade(&"X".into(), 1, Some(1), 7).unwrap(),
    ];
    for request in requests.iter() {
        let query = request.url().query().unwrap();
        let at = query.find("&signature=").unwrap();
        assert!(query[..at].ends_with("timestamp=7"));
        assert_eq!(query.len(), at + "&signature=".len() + 64);
    }
}

#[test]
fn privileged_endpoints_need_both_keys() {
    let without = client();
    match without.spot_account(None, None, NOW) {
        Err(ClientError::Authorization(which)) => assert_eq!(which, "SECRET KEY"),
        other => panic!("unexpected: {:?}", other),
    }
    let only_secret = Client::builder().set_secret_key("k".to_string()).build();
    match only_secret.spot_trades(&"X".into(), None, None, None, None, None, None, NOW) {
        Err(ClientError::Authorization(which)) => assert_eq!(which, "API KEY"),
        other => panic!("unexpected: {:?}", other),
    }
    let broken = Client::builder().set_base_url("::".to_string()).build();
    assert!(matches!(broken.server_ping(), Err(ClientError::UrlParse(_))));
    assert!(matches!(broken.prices(None), Err(ClientError::UrlParse(_))));
    assert!(matches!(broken.user_asset(None, None, None, NOW), Err(ClientError::UrlParse(_))));
}
