//! The errors of a call.

pub use super::http::error::{BinanceError, ClientError};
