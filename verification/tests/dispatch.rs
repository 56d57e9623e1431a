use binance_client::error::{BinanceError, ClientError};
use binance_client::http::client::{Client, ClientResult};
use binance_client::http::dispatch::{
    classify, is_success, settle_envelope, settle_payload, Exchange,
};
use serde_json::Value;
use std::cell::Cell;

fn read_value(body: &Vec<u8>) -> Result<Value, String> {
    serde_json::from_slice::<Value>(body).map_err(|e| e.to_string())
}

fn read_number(body: &Vec<u8>) -> Result<u64, String> {
    serde_json::from_slice::<u64>(body).map_err(|e| e.to_string())
}

fn read_envelope(body: &Vec<u8>) -> Result<BinanceError, String> {
    let value = serde_json::from_slice::<Value>(body).map_err(|e| e.to_string())?;
    let code = value.get("code").and_then(Value::as_i64).ok_or("missing field `code`".to_string())?;
    let msg = value.get("msg").and_then(Value::as_str).ok_or("missing field `msg`".to_string())?;
    Ok(BinanceError::new(code, msg.to_string()))
}

fn answered(status: u16, body: &str) -> Exchange {
    Exchange::Answered { status, body: body.as_bytes().to_vec() }
}

#[test]
fn statuses_from_200_to_299_are_success() {
    assert!(!is_success(0));
    assert!(!is_success(199));
    assert!(is_success(200));
    assert!(is_success(204));
    assert!(is_success(299));
    assert!(!is_success(300));
    assert!(!is_success(404));
    assert!(!is_success(503));
    assert!(!is_success(u16::MAX));
}

#[test]
fn a_success_with_a_matching_body_is_the_payload() {
    let r: ClientResult<u64> = classify(answered(200, "1700000000000"), read_number, read_envelope);
    assert_eq!(r.unwrap(), 1700000000000);
}

#[test]
fn a_success_with_another_body_is_a_serialization_error() {
    let r: ClientResult<u64> = classify(answered(200, "{\"serverTime\":1}"), read_number, read_envelope);
    assert!(matches!(r, Err(ClientError::SerdeJson(_))));
    let r: ClientResult<u64> =
        classify(answered(200, "{\"code\":-2014,\"msg\":\"bad signature\"}"), read_number, read_envelope);
    assert!(matches!(r, Err(ClientError::SerdeJson(_))));
}

#[test]
fn a_failure_with_an_envelope_is_the_remote_error() {
    for status in [400u16, 401, 418, 429, 500, 503] {
        let r: ClientResult<Value> = classify(
            answered(status, "{\"code\":-2014,\"msg\":\"bad signature\"}"),
            read_value,
            read_envelope,
        );
        match r {
            Err(ClientError::Binance(e)) => {
                assert_eq!(e.code(), -2014);
                assert_eq!(e.msg(), "bad signature");
            },
            other => panic!("unexpected: {:?}", other),
        }
    }
}

#[test]
fn a_failure_without_an_envelope_is_a_transport_error() {
    let r: ClientResult<Value> = classify(answered(502, "<html>502</html>"), read_value, read_envelope);
    assert!(matches!(r, Err(ClientError::Request(_))));
    let r: ClientResult<Value> = classify(answered(404, "{}"), read_value, read_envelope);
    match r {
        Err(ClientError::Request(reason)) => assert_eq!(reason, "missing field `code`"),
        other => panic!("unexpected: {:?}", other),
    }
}

#[test]
fn a_refused_connection_is_a_transport_error() {
    let r: ClientResult<Value> =
        classify(Exchange::Failed("connection refused".to_string()), read_value, read_envelope);
    match r {
        Err(ClientError::Request(reason)) => assert_eq!(reason, "connection refused"),
        other => panic!("unexpected: {:?}", other),
    }
}

#[test]
fn a_redirect_is_no_success() {
    let r: ClientResult<Value> = classify(answered(301, "{}"), read_value, read_envelope);
    assert!(matches!(r, Err(ClientError::Request(_))));
}

#[test]
fn only_the_reader_that_applies_is_called() {
    let payloads = Cell::new(0u32);
    let envelopes = Cell::new(0u32);
    let r: ClientResult<Value> = classify(
        answered(200, "{}"),
        |b: &Vec<u8>| {
            payloads.set(payloads.get() + 1);
            read_value(b)
        },
        |b: &Vec<u8>| {
            envelopes.set(envelopes.get() + 1);
            read_envelope(b)
        },
    );
    assert!(r.is_ok());
    assert_eq!((payloads.get(), envelopes.get()), (1, 0));
    let r: ClientResult<Value> = classify(
        answered(500, "{}"),
        |b: &Vec<u8>| {
            payloads.set(payloads.get() + 1);
            read_value(b)
        },
        |b: &Vec<u8>| {
            envelopes.set(envelopes.get() + 1);
            read_envelope(b)
        },
    );
    assert!(r.is_err());
    assert_eq!((payloads.get(), envelopes.get()), (1, 1));
    let r: ClientResult<Value> = classify(
        Exchange::Failed("timed out".to_string()),
        |b: &Vec<u8>| {
            payloads.set(payloads.get() + 1);
            read_value(b)
        },
        |b: &Vec<u8>| {
            envelopes.set(envelopes.get() + 1);
            read_envelope(b)
        },
    );
    assert!(r.is_err());
    assert_eq!((payloads.get(), envelopes.get()), (1, 1));
}

#[test]
fn what_was_read_settles_the_result() {
    let ok: ClientResult<u8> = settle_payload(Ok(7));
    assert_eq!(ok.unwrap(), 7);
    let bad: ClientResult<u8> = settle_payload(Err("expected value".to_string()));
    match bad {
        Err(ClientError::SerdeJson(reason)) => assert_eq!(reason, "expected value"),
        other => panic!("unexpected: {:?}", other),
    }
    let remote: ClientResult<u8> = settle_envelope(Ok(BinanceError::new(-1121, "Invalid symbol.".to_string())));
    match remote {
        Err(ClientError::Binance(e)) => assert_eq!((e.code(), e.msg().as_str()), (-1121, "Invalid symbol.")),
        other => panic!("unexpected: {:?}", other),
    }
    let garbled: ClientResult<u8> = settle_envelope(Err("EOF while parsing".to_string()));
    match garbled {
        Err(ClientError::Request(reason)) => assert_eq!(reason, "EOF while parsing"),
        other => panic!("unexpected: {:?}", other),
    }
}

#[test]
fn an_unsigned_ping_against_a_server_that_answers() {
    let client = Client::builder().set_base_url("http://127.0.0.1:8080".to_string()).build();
    let request = client.server_ping().unwrap();
    assert_eq!(request.url().as_str(), "http://127.0.0.1:8080/api/v3/ping");
    let r: ClientResult<Value> = classify(answered(200, "{}"), read_value, read_envelope);
    assert_eq!(r.unwrap(), Value::Object(serde_json::Map::new()));
}

#[test]
fn an_unsigned_ping_against_a_server_that_is_unavailable() {
    let client = Client::builder().set_base_url("http://127.0.0.1:8080".to_string()).build();
    let request = client.server_ping().unwrap();
    assert!(request.api_key().is_none());
    let r: ClientResult<Value> =
        classify(answered(503, "{\"code\":-1,\"msg\":\"unavailable\"}"), read_value, read_envelope);
    match r {
        Err(ClientError::Binance(e)) => {
            assert_eq!(e.code(), -1);
            assert_eq!(e.msg(), "unavailable");
            assert_eq!(e.to_string(), "-1 unavailable");
        },
        other => panic!("unexpected: {:?}", other),
    }
}
