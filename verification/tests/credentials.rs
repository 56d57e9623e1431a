use binance_client::error::ClientError;
use binance_client::http::client::{Client, ClientBuilder, DEFAULT_BASE_URL};
use binance_client::http::request::Secret;
use std::time::Duration;

#[test]
fn a_fresh_secret_has_no_keys() {
    let secret = Secret::default();
    match secret.api_key() {
        Err(ClientError::Authorization(which)) => assert_eq!(which, "API KEY"),
        other => panic!("unexpected: {:?}", other),
    }
    match secret.secret_key() {
        Err(ClientError::Authorization(which)) => assert_eq!(which, "SECRET KEY"),
        other => panic!("unexpected: {:?}", other),
    }
}

#[test]
fn keys_are_stored_as_given() {
    let mut secret = Secret::default();
    secret.update_api_key("  key with spaces ".to_string());
    assert_eq!(secret.api_key().unwrap(), "  key with spaces ");
    assert!(secret.secret_key().is_err());
    secret.update_secret_key(String::new());
    assert_eq!(secret.secret_key().unwrap(), "");
    assert_eq!(secret.api_key().unwrap(), "  key with spaces ");
}

#[test]
fn a_later_key_replaces_an_earlier_one() {
    let mut secret = Secret::default();
    secret.update_api_key("first".to_string());
    secret.update_api_key("second".to_string());
    secret.update_secret_key("one".to_string());
    secret.update_secret_key("two".to_string());
    assert_eq!(secret.api_key().unwrap(), "second");
    assert_eq!(secret.secret_key().unwrap(), "two");
}

#[test]
fn the_builder_starts_from_the_defaults() {
    let client = Client::builder().build();
    assert_eq!(DEFAULT_BASE_URL, "https://api.binance.com");
    assert_eq!(client.base_url_text(), "https://api.binance.com");
    assert_eq!(client.timeout(), Duration::from_secs(300));
    assert_eq!(client.header_count(), 1);
    assert_eq!(client.header_name(0), "Content-Type");
    assert_eq!(client.header_value(0), "application/x-www-form-urlencoded");
    assert!(client.secret().api_key().is_err());
    assert!(client.secret().secret_key().is_err());
}

#[test]
fn new_and_default_builders_agree() {
    let a = ClientBuilder::new().build();
    let b = ClientBuilder::default().build();
    assert_eq!(a.base_url_text(), b.base_url_text());
    assert_eq!(a.timeout(), b.timeout());
    assert_eq!(a.header_count(), b.header_count());
}

#[test]
fn the_builder_keeps_what_it_is_given() {
    let client = Client::builder()
        .set_base_url("https://testnet.binance.vision".to_string())
        .set_timeout(Duration::from_millis(1500))
        .set_api_key("api".to_string())
        .set_secret_key("secret".to_string())
        .build();
    assert_eq!(client.base_url_text(), "https://testnet.binance.vision");
    assert_eq!(client.timeout(), Duration::from_millis(1500));
    assert_eq!(client.secret().api_key().unwrap(), "api");
    assert_eq!(client.secret().secret_key().unwrap(), "secret");
    assert_eq!(client.header_count(), 1);
}

#[test]
fn the_base_url_is_parsed_on_demand() {
    let client = Client::builder().build();
    assert_eq!(client.base_url().unwrap().as_str(), "https://api.binance.com/");
    let broken = Client::builder().set_base_url("not a url".to_string()).build();
    match broken.base_url() {
        Err(ClientError::UrlParse(reason)) => assert_eq!(reason, "relative URL without a base"),
        other => panic!("unexpected: {:?}", other),
    }
}
