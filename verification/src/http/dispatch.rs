//! What becomes of a request once the transport has tried it: the payload,
//! the exchange's own error, or the failure of the attempt.
//!
//! The transport is not here. Whoever performs the round trip hands in what
//! came back, and the two readers that turn a body into a value.

use crate::http::client::ClientResult;
use crate::http::error::{BinanceError, ClientError};
use vstd::prelude::*;

verus! {

/// What the transport reports of one round trip.
#[derive(Debug)]
pub enum Exchange {
    /// No response arrived; holds the transport's words.
    Failed(String),
    /// A response arrived, with this status and this body.
    Answered { status: u16, body: Vec<u8> },
}

/// Whether a status is one of success: 200 to 299.
pub open spec fn success(status: u16) -> bool {
    200 <= status <= 299
}

/// What a success response comes to, given what reading its body as the
/// payload gave.
pub open spec fn payload_outcome<T>(read: Result<T, String>) -> ClientResult<T> {
    match read {
        Ok(value) => Ok(value),
        Err(reason) => Err(ClientError::SerdeJson(reason)),
    }
}

/// What a failure response comes to, given what reading its body as the
/// exchange's error envelope gave.
pub open spec fn envelope_outcome<T>(read: Result<BinanceError, String>) -> ClientResult<T> {
    match read {
        Ok(envelope) => Err(ClientError::Binance(envelope)),
        Err(reason) => Err(ClientError::Request(reason)),
    }
}

/// Whether a status is one of success.
pub fn is_success(status: u16) -> (b: bool)
    ensures
        b == success(status),
{
    200 <= status && status <= 299
}

/// The result of a success response: the payload, or a serialization error
/// where the body did not have its shape.
pub fn settle_payload<T>(read: Result<T, String>) -> (r: ClientResult<T>)
    ensures
        r == payload_outcome(read),
{
    match read {
        Ok(value) => Ok(value),
        Err(reason) => Err(ClientError::SerdeJson(reason)),
    }
}

/// The result of a failure response: the exchange's error, or a transport
/// error where the body was no envelope.
pub fn settle_envelope<T>(read: Result<BinanceError, String>) -> (r: ClientResult<T>)
    ensures
        r == envelope_outcome::<T>(read),
{
    match read {
        Ok(envelope) => Err(ClientError::Binance(envelope)),
        Err(reason) => Err(ClientError::Request(reason)),
    }
}

/// Classifies one round trip. A failed attempt is a transport error. A
/// response of success is read as the payload, any other as the exchange's
/// error envelope; only the reader that applies is called, and once.
pub fn classify<T, P, E>(exchange: Exchange, read_payload: P, read_envelope: E) -> (r:
    ClientResult<T>) where
    P: FnOnce(&Vec<u8>) -> Result<T, String>,
    E: FnOnce(&Vec<u8>) -> Result<BinanceError, String>,

    requires
        forall|body: &Vec<u8>| read_payload.requires((body,)),
        forall|body: &Vec<u8>| read_envelope.requires((body,)),
    ensures
        match exchange {
            Exchange::Failed(reason) => r == Err::<T, ClientError>(ClientError::Request(reason)),
            Exchange::Answered { status, body } => if success(status) {
                exists|read: Result<T, String>|
                    read_payload.ensures((&body,), read) && r == payload_outcome(read)
            } else {
                exists|read: Result<BinanceError, String>|
                    read_envelope.ensures((&body,), read) && r == envelope_outcome::<T>(read)
            },
        },
{
    match exchange {
        Exchange::Failed(reason) => Err(ClientError::Request(reason)),
        Exchange::Answered { status, body } => {
            if is_success(status) {
                let read = read_payload(&body);
                settle_payload(read)
            } else {
                let read = read_envelope(&body);
                settle_envelope(read)
            }
        },
    }
}

} // verus!
