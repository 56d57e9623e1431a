use binance_client::error::ClientError;
use binance_client::http::address::{try_append_pair, try_set_path};
use binance_client::http::client::Client;
use binance_client::http::query::Params;
use binance_client::http::request::{Method, API_KEY_HEADER, SIGNATURE_PARAMETER};
use url::Url;

fn client() -> Client {
    Client::builder().build()
}

fn client_with_keys() -> Client {
    Client::builder().set_api_key("api".to_string()).set_secret_key("s3cr3t".to_string()).build()
}

#[test]
fn params_keep_their_order() {
    let mut params = Params::new();
    assert_eq!(params.len(), 0);
    params.append_pair("b", "2");
    params.append_pair("a", "1");
    params.append_pair("b", "3");
    assert_eq!(params.len(), 3);
    assert_eq!((params.name(0), params.value(0)), ("b", "2"));
    assert_eq!((params.name(1), params.value(1)), ("a", "1"));
    assert_eq!((params.name(2), params.value(2)), ("b", "3"));
}

#[test]
fn params_write_numbers_in_decimal() {
    let mut params = Params::new();
    params.append_u128("timestamp", 1700000000000);
    params.append_i64("orderId", -42);
    params.append_optional_u8("recvWindow", Some(255));
    params.append_optional_u16("limit", Some(1000));
    params.append_optional_u128("startTime", Some(0));
    params.append_optional_i64("fromId", Some(7));
    params.append_optional_bool("omitZeroBalances", Some(false));
    let asset = "BTC".to_string();
    params.append_optional_text("asset", Some(&asset));
    params.append_optional("note", Some(""));
    let got: Vec<(String, String)> = (0..params.len())
        .map(|i| (params.name(i).to_string(), params.value(i).to_string()))
        .collect();
    let want = vec![
        ("timestamp", "1700000000000"),
        ("orderId", "-42"),
        ("recvWindow", "255"),
        ("limit", "1000"),
        ("startTime", "0"),
        ("fromId", "7"),
        ("omitZeroBalances", "false"),
        ("asset", "BTC"),
        ("note", ""),
    ];
    assert_eq!(got.len(), want.len());
    for (g, w) in got.iter().zip(want.iter()) {
        assert_eq!((g.0.as_str(), g.1.as_str()), *w);
    }
}

#[test]
fn an_absent_parameter_leaves_no_trace() {
    let mut params = Params::new();
    params.append_optional("a", None);
    params.append_optional_text("b", None);
    params.append_optional_bool("c", None);
    params.append_optional_u8("d", None);
    params.append_optional_u16("e", None);
    params.append_optional_u128("f", None);
    params.append_optional_i64("g", None);
    assert_eq!(params.len(), 0);
}

#[test]
fn an_absent_parameter_makes_the_query_strictly_shorter() {
    let client = client();
    let mut with = Params::new();
    with.append_pair("symbol", "BTCUSDT");
    with.append_optional("note", Some(""));
    with.append_pair("timestamp", "1");
    let mut without = Params::new();
    without.append_pair("symbol", "BTCUSDT");
    without.append_optional("note", None);
    without.append_pair("timestamp", "1");
    let with = client.unsigned(Method::Get, "/x", &with).unwrap();
    let without = client.unsigned(Method::Get, "/x", &without).unwrap();
    assert_eq!(with.url().query(), Some("symbol=BTCUSDT&note=&timestamp=1"));
    assert_eq!(without.url().query(), Some("symbol=BTCUSDT&timestamp=1"));
    assert!(without.url().query().unwrap().len() < with.url().query().unwrap().len());
    assert!(!without.url().query().unwrap().contains("note"));
}

#[test]
fn an_unsigned_request_has_no_signature_and_no_key() {
    let mut params = Params::new();
    params.append_pair("symbol", "BTCUSDT");
    let request = client_with_keys().unsigned(Method::Get, "/api/v3/ticker/price", &params).unwrap();
    assert_eq!(request.method(), Method::Get);
    assert_eq!(request.url().as_str(), "https://api.binance.com/api/v3/ticker/price?symbol=BTCUSDT");
    assert!(request.api_key().is_none());
    assert!(request.headers().is_empty());
    assert!(!request.url().as_str().contains(SIGNATURE_PARAMETER));
}

#[test]
fn an_unsigned_request_without_parameters_has_no_query() {
    let request = client().unsigned(Method::Post, "/api/v3/ping", &Params::new()).unwrap();
    assert_eq!(request.method(), Method::Post);
    assert_eq!(request.url().as_str(), "https://api.binance.com/api/v3/ping");
    assert_eq!(request.url().query(), None);
}

#[test]
fn a_request_can_carry_an_empty_query() {
    let request = client().unsigned_with_query(Method::Get, "/api/v3/ticker/price", &Params::new()).unwrap();
    assert_eq!(request.url().as_str(), "https://api.binance.com/api/v3/ticker/price?");
    assert_eq!(request.url().query(), Some(""));
    assert!(request.api_key().is_none());
    let mut params = Params::new();
    params.append_pair("symbols", "[]");
    let request = client().unsigned_with_query(Method::Post, "/x", &params).unwrap();
    assert_eq!(request.method(), Method::Post);
    assert_eq!(request.url().as_str(), "https://api.binance.com/x?symbols=%5B%5D");
    let broken = Client::builder().set_base_url("nowhere".to_string()).build();
    assert!(matches!(
        broken.unsigned_with_query(Method::Get, "/x", &Params::new()),
        Err(ClientError::UrlParse(_))
    ));
}

#[test]
fn names_and_values_are_form_encoded() {
    let mut params = Params::new();
    params.append_pair("a b", "x&y=z");
    params.append_pair("sym*-._", "Été+hiver");
    params.append_pair("symbols", "[\"BTCUSDT\",\"ETHUSDT\"]");
    let request = client().unsigned(Method::Get, "/x", &params).unwrap();
    assert_eq!(
        request.url().query(),
        Some("a+b=x%26y%3Dz&sym*-._=%C3%89t%C3%A9%2Bhiver&symbols=%5B%22BTCUSDT%22%2C%22ETHUSDT%22%5D")
    );
}

#[test]
fn the_path_replaces_that_of_the_base_url() {
    let client = Client::builder().set_base_url("https://example.com/proxy/v1".to_string()).build();
    let request = client.unsigned(Method::Get, "/api/v3/time", &Params::new()).unwrap();
    assert_eq!(request.url().as_str(), "https://example.com/api/v3/time");
    let spaced = client.unsigned(Method::Get, "api/some comments", &Params::new()).unwrap();
    assert_eq!(spaced.url().as_str(), "https://example.com/api/some%20comments");
}

#[test]
fn a_query_of_the_base_url_stays_in_front() {
    let client = Client::builder()
        .set_base_url("https://example.com/?tenant=7#top".to_string())
        .build();
    let mut params = Params::new();
    params.append_pair("symbol", "BTCUSDT");
    let request = client.unsigned(Method::Get, "/api/v3/time", &params).unwrap();
    assert_eq!(request.url().as_str(), "https://example.com/api/v3/time?tenant=7&symbol=BTCUSDT#top");
}

#[test]
fn a_base_url_that_is_none_fails_every_request() {
    let client = Client::builder()
        .set_base_url("api.binance.com".to_string())
        .set_api_key("api".to_string())
        .set_secret_key("s3cr3t".to_string())
        .build();
    let mut params = Params::new();
    params.append_pair("timestamp", "1");
    assert!(matches!(client.unsigned(Method::Get, "/x", &params), Err(ClientError::UrlParse(_))));
    assert!(matches!(client.signed(Method::Get, "/x", &params), Err(ClientError::UrlParse(_))));
    let empty = Client::builder().set_base_url(String::new()).build();
    assert!(matches!(empty.signed(Method::Get, "/x", &Params::new()), Err(ClientError::UrlParse(_))));
}

#[test]
fn a_signed_request_without_parameters_is_an_empty_query() {
    assert!(matches!(
        client_with_keys().signed(Method::Get, "/api/v3/order", &Params::new()),
        Err(ClientError::EmptyQuery)
    ));
    assert!(matches!(
        client().signed(Method::Post, "/api/v3/order", &Params::new()),
        Err(ClientError::EmptyQuery)
    ));
}

#[test]
fn a_missing_secret_key_is_reported_before_a_missing_api_key() {
    let mut params = Params::new();
    params.append_pair("timestamp", "1");
    match client().signed(Method::Get, "/x", &params) {
        Err(ClientError::Authorization(which)) => assert_eq!(which, "SECRET KEY"),
        other => panic!("unexpected: {:?}", other),
    }
    let only_api = Client::builder().set_api_key("api".to_string()).build();
    match only_api.signed(Method::Get, "/x", &params) {
        Err(ClientError::Authorization(which)) => assert_eq!(which, "SECRET KEY"),
        other => panic!("unexpected: {:?}", other),
    }
}

#[test]
fn a_missing_api_key_is_reported_where_signing_succeeds() {
    let mut params = Params::new();
    params.append_pair("timestamp", "1");
    let only_secret = Client::builder().set_secret_key("s3cr3t".to_string()).build();
    match only_secret.signed(Method::Get, "/x", &params) {
        Err(ClientError::Authorization(which)) => assert_eq!(which, "API KEY"),
        other => panic!("unexpected: {:?}", other),
    }
}

#[test]
fn a_signed_request_carries_the_api_key_header() {
    let mut params = Params::new();
    params.append_pair("x", "1");
    params.append_pair("timestamp", "7");
    let request = client_with_keys().signed(Method::Post, "/x", &params).unwrap();
    assert_eq!(request.method(), Method::Post);
    assert_eq!(request.api_key().unwrap(), "api");
    assert_eq!(API_KEY_HEADER, "X-MBX-APIKEY");
    assert_eq!(request.headers(), vec![("X-MBX-APIKEY".to_string(), "api".to_string())]);
    assert_eq!(
        request.url().as_str(),
        "https://api.binance.com/x?x=1&timestamp=7&signature=8f4b55810d86ecf69fabfd561d80c22d61f096f355812d5363454939a9806e4b"
    );
}

#[test]
fn a_request_can_be_stamped_with_a_key() {
    let url = Url::parse("https://api.binance.com/x").unwrap();
    let plain = client().build_request_get(url.clone());
    assert!(plain.api_key().is_none());
    let stamped = plain.with_api_key(&"abc".to_string());
    assert_eq!(stamped.api_key().unwrap(), "abc");
    assert_eq!(stamped.method(), Method::Get);
    assert_eq!(stamped.url().as_str(), "https://api.binance.com/x");
    let post = client().build_request_post(url);
    assert_eq!(post.method(), Method::Post);
}

#[test]
fn the_url_helpers_change_the_url_in_place() {
    let mut url = Url::parse("https://api.binance.com").unwrap();
    assert!(try_set_path(&mut url, "/api/v3/order").is_ok());
    assert!(try_append_pair(&mut url, "symbol", "BTCUSDT").is_ok());
    assert!(try_append_pair(&mut url, "side", "BUY").is_ok());
    assert_eq!(url.as_str(), "https://api.binance.com/api/v3/order?symbol=BTCUSDT&side=BUY");
}
