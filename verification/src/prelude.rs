//! What most callers need.

pub use super::http::client::{Client, ClientBuilder, ClientResult};
