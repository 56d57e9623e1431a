use binance_client::error::{BinanceError, ClientError};
use binance_client::spot::OrderSide;
use binance_client::text::{boolean_text, decimal_i64, decimal_u128, to_lower_hex};

#[test]
fn unsigned_numbers_in_decimal() {
    assert_eq!(decimal_u128(0), "0");
    assert_eq!(decimal_u128(7), "7");
    assert_eq!(decimal_u128(10), "10");
    assert_eq!(decimal_u128(1700000000000), "1700000000000");
    assert_eq!(decimal_u128(u128::MAX), "340282366920938463463374607431768211455");
    for n in [1u128, 9, 99, 100, 101, 65535, 4294967296] {
        assert_eq!(decimal_u128(n), n.to_string());
    }
}

#[test]
fn signed_numbers_in_decimal() {
    assert_eq!(decimal_i64(0), "0");
    assert_eq!(decimal_i64(-1), "-1");
    assert_eq!(decimal_i64(42), "42");
    assert_eq!(decimal_i64(i64::MAX), "9223372036854775807");
    assert_eq!(decimal_i64(i64::MIN), "-9223372036854775808");
    for n in [-10i64, -9, 10, -2014, 1121] {
        assert_eq!(decimal_i64(n), n.to_string());
    }
}

#[test]
fn booleans_spelled_out() {
    assert_eq!(boolean_text(true), "true");
    assert_eq!(boolean_text(false), "false");
}

#[test]
fn bytes_in_lower_hex() {
    assert_eq!(to_lower_hex(&[]), "");
    assert_eq!(to_lower_hex(&[0]), "00");
    assert_eq!(to_lower_hex(&[0x0f, 0xf0, 0xab, 0x09, 0xff]), "0ff0ab09ff");
    let all: Vec<u8> = (0..=255u8).collect();
    let want: String = all.iter().map(|b| format!("{:02x}", b)).collect();
    assert_eq!(to_lower_hex(&all), want);
}

#[test]
fn order_sides_as_the_exchange_writes_them() {
    assert_eq!(OrderSide::Buy.as_str(), "BUY");
    assert_eq!(OrderSide::Sell.as_str(), "SELL");
}

#[test]
fn errors_in_words() {
    assert_eq!(ClientError::Authorization("API KEY".to_string()).to_string(), "API KEY");
    assert_eq!(ClientError::SerdeJson("expected value".to_string()).to_string(), "expected value");
    assert_eq!(ClientError::UrlParse("empty host".to_string()).to_string(), "empty host");
    assert_eq!(ClientError::Request("timed out".to_string()).to_string(), "timed out");
    assert_eq!(ClientError::EmptyQuery.to_string(), "Empty Query");
    let remote = BinanceError::new(-2014, "bad signature".to_string());
    assert_eq!(remote.to_string(), "-2014 bad signature");
    assert_eq!(ClientError::Binance(remote).to_string(), "-2014 bad signature");
    assert_eq!(BinanceError::new(0, String::new()).to_string(), "0 ");
}

#[test]
fn errors_made_from_outside_errors_keep_their_words() {
    let e = url::Url::parse("https://").unwrap_err();
    match ClientError::from_url_error(e) {
        ClientError::UrlParse(reason) => assert_eq!(reason, "empty host"),
        other => panic!("unexpected: {:?}", other),
    }
    let e = serde_json::from_str::<u8>("x").unwrap_err();
    let words = e.to_string();
    match ClientError::from_json_error(e) {
        ClientError::SerdeJson(reason) => assert_eq!(reason, words),
        other => panic!("unexpected: {:?}", other),
    }
    assert!(matches!(ClientError::too_long(), ClientError::UrlParse(_)));
}
